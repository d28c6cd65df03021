use unicop::unicode_blocks::{basic_latin, block_at, find_block, BLOCK_COUNT, UNICODE_BLOCKS};

#[test]
fn finds_blocks_by_name() {
    let tibetan = find_block("Tibetan").unwrap();
    assert_eq!(tibetan.name(), "Tibetan");
    assert_eq!(tibetan.first(), '\u{F00}');
    assert_eq!(tibetan.last(), '\u{FFF}');

    let boxes = find_block("Box Drawing").unwrap();
    assert_eq!(boxes.first(), '\u{2500}');
    assert_eq!(boxes.last(), '\u{257F}');

    let operators = find_block("Mathematical Operators").unwrap();
    assert_eq!(operators.first(), '\u{2200}');
    assert_eq!(operators.last(), '\u{22FF}');

    let han = find_block("CJK Unified Ideographs").unwrap();
    assert_eq!(han.first(), '\u{4E00}');
    assert_eq!(han.last(), '\u{9FFF}');

    let last = find_block("Supplementary Private Use Area-B").unwrap();
    assert_eq!(last.first(), '\u{100000}');
    assert_eq!(last.last(), '\u{10FFFF}');
}

#[test]
fn block_names_are_exact() {
    assert!(find_block("tibetan").is_none());
    assert!(find_block("Tibetan ").is_none());
    assert!(find_block("").is_none());
    assert!(find_block("ascii").is_none());
    assert!(find_block("High Surrogates").is_none());
}

#[test]
fn basic_latin_is_ascii() {
    let block = basic_latin();
    assert_eq!(block.name(), "Basic Latin");
    assert_eq!(block.first(), '\0');
    assert_eq!(block.last(), '\u{7F}');
    assert!(block.contains('a'));
    assert!(block.contains('\u{7F}'));
    assert!(!block.contains('\u{80}'));
    assert_eq!(block, find_block("Basic Latin").unwrap());
}

#[test]
fn blocks_are_equal_by_name() {
    assert_eq!(find_block("Tibetan").unwrap(), find_block("Tibetan").unwrap());
    assert!(find_block("Tibetan").unwrap() != find_block("Thai").unwrap());
}

#[test]
fn table_rows_by_index() {
    assert_eq!(BLOCK_COUNT, UNICODE_BLOCKS.len());
    assert_eq!(block_at(0).unwrap().name(), "Basic Latin");
    assert_eq!(block_at(34).unwrap().name(), "Tibetan");
    assert_eq!(block_at(BLOCK_COUNT - 1).unwrap().name(), "Supplementary Private Use Area-B");
    assert!(block_at(BLOCK_COUNT).is_none());
    assert!(block_at(usize::MAX).is_none());
}

#[test]
fn table_is_in_order_and_every_row_is_found() {
    let mut previous: Option<char> = None;
    for i in 0..BLOCK_COUNT {
        let block = block_at(i).unwrap();
        assert!(block.first() <= block.last());
        if let Some(end) = previous {
            assert!(end < block.first());
        }
        previous = Some(block.last());
        let found = find_block(block.name()).unwrap();
        assert_eq!(found.first(), block.first());
        assert_eq!(found.last(), block.last());
    }
}
