//! The named blocks of the Unicode code space.
//!
//! The table lists the blocks of Unicode 16.0 under the names that the
//! standard gives them. The three surrogate blocks are left out: they hold no
//! character.

use crate::text::str_eq;
use vstd::prelude::*;
use vstd::std_specs::cmp::PartialEqSpecImpl;

verus! {

/// What a block is: its name and the inclusive range of its characters.
pub struct BlockView {
    pub name: Seq<char>,
    pub first: char,
    pub last: char,
}

impl BlockView {
    /// Whether `c` lies in the block's range.
    pub open spec fn contains(self, c: char) -> bool {
        self.first <= c <= self.last
    }
}

/// A named, contiguous range of characters.
#[derive(Debug, Clone, Copy)]
pub struct UnicodeBlock {
    name: &'static str,
    first: char,
    last: char,
}

impl View for UnicodeBlock {
    type V = BlockView;

    closed spec fn view(&self) -> BlockView {
        BlockView { name: self.name@, first: self.first, last: self.last }
    }
}

impl UnicodeBlock {
    /// The block's name.
    pub fn name(&self) -> (name: &'static str)
        ensures
            name@ == self@.name,
    {
        self.name
    }

    /// The first character of the block.
    pub fn first(&self) -> (c: char)
        ensures
            c == self@.first,
    {
        self.first
    }

    /// The last character of the block.
    pub fn last(&self) -> (c: char)
        ensures
            c == self@.last,
    {
        self.last
    }

    /// Whether `c` lies in the block.
    pub fn contains(&self, c: char) -> (inside: bool)
        ensures
            inside == self@.contains(c),
    {
        self.first <= c && c <= self.last
    }
}

/// Two blocks are equal when they have the same name.
impl PartialEq for UnicodeBlock {
    fn eq(&self, other: &UnicodeBlock) -> (same: bool) {
        str_eq(self.name, other.name)
    }
}

impl Eq for UnicodeBlock {

}

impl PartialEqSpecImpl for UnicodeBlock {
    open spec fn obeys_eq_spec() -> bool {
        true
    }

    open spec fn eq_spec(&self, other: &UnicodeBlock) -> bool {
        self@.name == other@.name
    }
}

/// The number of blocks in the table.
pub const BLOCK_COUNT: usize = 335;

/// Every block with its name, its first and its last character, in the order
/// of the code space.
pub const UNICODE_BLOCKS: [(&'static str, char, char); 335] = [
    ("Basic Latin", '\u{0}', '\u{7F}'),
    ("Latin-1 Supplement", '\u{80}', '\u{FF}'),
    ("Latin Extended-A", '\u{100}', '\u{17F}'),
    ("Latin Extended-B", '\u{180}', '\u{24F}'),
    ("IPA Extensions", '\u{250}', '\u{2AF}'),
    ("Spacing Modifier Letters", '\u{2B0}', '\u{2FF}'),
    ("Combining Diacritical Marks", '\u{300}', '\u{36F}'),
    ("Greek and Coptic", '\u{370}', '\u{3FF}'),
    ("Cyrillic", '\u{400}', '\u{4FF}'),
    ("Cyrillic Supplement", '\u{500}', '\u{52F}'),
    ("Armenian", '\u{530}', '\u{58F}'),
    ("Hebrew", '\u{590}', '\u{5FF}'),
    ("Arabic", '\u{600}', '\u{6FF}'),
    ("Syriac", '\u{700}', '\u{74F}'),
    ("Arabic Supplement", '\u{750}', '\u{77F}'),
    ("Thaana", '\u{780}', '\u{7BF}'),
    ("NKo", '\u{7C0}', '\u{7FF}'),
    ("Samaritan", '\u{800}', '\u{83F}'),
    ("Mandaic", '\u{840}', '\u{85F}'),
    ("Syriac Supplement", '\u{860}', '\u{86F}'),
    ("Arabic Extended-B", '\u{870}', '\u{89F}'),
    ("Arabic Extended-A", '\u{8A0}', '\u{8FF}'),
    ("Devanagari", '\u{900}', '\u{97F}'),
    ("Bengali", '\u{980}', '\u{9FF}'),
    ("Gurmukhi", '\u{A00}', '\u{A7F}'),
    ("Gujarati", '\u{A80}', '\u{AFF}'),
    ("Oriya", '\u{B00}', '\u{B7F}'),
    ("Tamil", '\u{B80}', '\u{BFF}'),
    ("Telugu", '\u{C00}', '\u{C7F}'),
    ("Kannada", '\u{C80}', '\u{CFF}'),
    ("Malayalam", '\u{D00}', '\u{D7F}'),
    ("Sinhala", '\u{D80}', '\u{DFF}'),
    ("Thai", '\u{E00}', '\u{E7F}'),
    ("Lao", '\u{E80}', '\u{EFF}'),
    ("Tibetan", '\u{F00}', '\u{FFF}'),
    ("Myanmar", '\u{1000}', '\u{109F}'),
    ("Georgian", '\u{10A0}', '\u{10FF}'),
    ("Hangul Jamo", '\u{1100}', '\u{11FF}'),
    ("Ethiopic", '\u{1200}', '\u{137F}'),
    ("Ethiopic Supplement", '\u{1380}', '\u{139F}'),
    ("Cherokee", '\u{13A0}', '\u{13FF}'),
    ("Unified Canadian Aboriginal Syllabics", '\u{1400}', '\u{167F}'),
    ("Ogham", '\u{1680}', '\u{169F}'),
    ("Runic", '\u{16A0}', '\u{16FF}'),
    ("Tagalog", '\u{1700}', '\u{171F}'),
    ("Hanunoo", '\u{1720}', '\u{173F}'),
    ("Buhid", '\u{1740}', '\u{175F}'),
    ("Tagbanwa", '\u{1760}', '\u{177F}'),
    ("Khmer", '\u{1780}', '\u{17FF}'),
    ("Mongolian", '\u{1800}', '\u{18AF}'),
    ("Unified Canadian Aboriginal Syllabics Extended", '\u{18B0}', '\u{18FF}'),
    ("Limbu", '\u{1900}', '\u{194F}'),
    ("Tai Le", '\u{1950}', '\u{197F}'),
    ("New Tai Lue", '\u{1980}', '\u{19DF}'),
    ("Khmer Symbols", '\u{19E0}', '\u{19FF}'),
    ("Buginese", '\u{1A00}', '\u{1A1F}'),
    ("Tai Tham", '\u{1A20}', '\u{1AAF}'),
    ("Combining Diacritical Marks Extended", '\u{1AB0}', '\u{1AFF}'),
    ("Balinese", '\u{1B00}', '\u{1B7F}'),
    ("Sundanese", '\u{1B80}', '\u{1BBF}'),
    ("Batak", '\u{1BC0}', '\u{1BFF}'),
    ("Lepcha", '\u{1C00}', '\u{1C4F}'),
    ("Ol Chiki", '\u{1C50}', '\u{1C7F}'),
    ("Cyrillic Extended-C", '\u{1C80}', '\u{1C8F}'),
    ("Georgian Extended", '\u{1C90}', '\u{1CBF}'),
    ("Sundanese Supplement", '\u{1CC0}', '\u{1CCF}'),
    ("Vedic Extensions", '\u{1CD0}', '\u{1CFF}'),
    ("Phonetic Extensions", '\u{1D00}', '\u{1D7F}'),
    ("Phonetic Extensions Supplement", '\u{1D80}', '\u{1DBF}'),
    ("Combining Diacritical Marks Supplement", '\u{1DC0}', '\u{1DFF}'),
    ("Latin Extended Additional", '\u{1E00}', '\u{1EFF}'),
    ("Greek Extended", '\u{1F00}', '\u{1FFF}'),
    ("General Punctuation", '\u{2000}', '\u{206F}'),
    ("Superscripts and Subscripts", '\u{2070}', '\u{209F}'),
    ("Currency Symbols", '\u{20A0}', '\u{20CF}'),
    ("Combining Diacritical Marks for Symbols", '\u{20D0}', '\u{20FF}'),
    ("Letterlike Symbols", '\u{2100}', '\u{214F}'),
    ("Number Forms", '\u{2150}', '\u{218F}'),
    ("Arrows", '\u{2190}', '\u{21FF}'),
    ("Mathematical Operators", '\u{2200}', '\u{22FF}'),
    ("Miscellaneous Technical", '\u{2300}', '\u{23FF}'),
    ("Control Pictures", '\u{2400}', '\u{243F}'),
    ("Optical Character Recognition", '\u{2440}', '\u{245F}'),
    ("Enclosed Alphanumerics", '\u{2460}', '\u{24FF}'),
    ("Box Drawing", '\u{2500}', '\u{257F}'),
    ("Block Elements", '\u{2580}', '\u{259F}'),
    ("Geometric Shapes", '\u{25A0}', '\u{25FF}'),
    ("Miscellaneous Symbols", '\u{2600}', '\u{26FF}'),
    ("Dingbats", '\u{2700}', '\u{27BF}'),
    ("Miscellaneous Mathematical Symbols-A", '\u{27C0}', '\u{27EF}'),
    ("Supplemental Arrows-A", '\u{27F0}', '\u{27FF}'),
    ("Braille Patterns", '\u{2800}', '\u{28FF}'),
    ("Supplemental Arrows-B", '\u{2900}', '\u{297F}'),
    ("Miscellaneous Mathematical Symbols-B", '\u{2980}', '\u{29FF}'),
    ("Supplemental Mathematical Operators", '\u{2A00}', '\u{2AFF}'),
    ("Miscellaneous Symbols and Arrows", '\u{2B00}', '\u{2BFF}'),
    ("Glagolitic", '\u{2C00}', '\u{2C5F}'),
    ("Latin Extended-C", '\u{2C60}', '\u{2C7F}'),
    ("Coptic", '\u{2C80}', '\u{2CFF}'),
    ("Georgian Supplement", '\u{2D00}', '\u{2D2F}'),
    ("Tifinagh", '\u{2D30}', '\u{2D7F}'),
    ("Ethiopic Extended", '\u{2D80}', '\u{2DDF}'),
    ("Cyrillic Extended-A", '\u{2DE0}', '\u{2DFF}'),
    ("Supplemental Punctuation", '\u{2E00}', '\u{2E7F}'),
    ("CJK Radicals Supplement", '\u{2E80}', '\u{2EFF}'),
    ("Kangxi Radicals", '\u{2F00}', '\u{2FDF}'),
    ("Ideographic Description Characters", '\u{2FF0}', '\u{2FFF}'),
    ("CJK Symbols and Punctuation", '\u{3000}', '\u{303F}'),
    ("Hiragana", '\u{3040}', '\u{309F}'),
    ("Katakana", '\u{30A0}', '\u{30FF}'),
    ("Bopomofo", '\u{3100}', '\u{312F}'),
    ("Hangul Compatibility Jamo", '\u{3130}', '\u{318F}'),
    ("Kanbun", '\u{3190}', '\u{319F}'),
    ("Bopomofo Extended", '\u{31A0}', '\u{31BF}'),
    ("CJK Strokes", '\u{31C0}', '\u{31EF}'),
    ("Katakana Phonetic Extensions", '\u{31F0}', '\u{31FF}'),
    ("Enclosed CJK Letters and Months", '\u{3200}', '\u{32FF}'),
    ("CJK Compatibility", '\u{3300}', '\u{33FF}'),
    ("CJK Unified Ideographs Extension A", '\u{3400}', '\u{4DBF}'),
    ("Yijing Hexagram Symbols", '\u{4DC0}', '\u{4DFF}'),
    ("CJK Unified Ideographs", '\u{4E00}', '\u{9FFF}'),
    ("Yi Syllables", '\u{A000}', '\u{A48F}'),
    ("Yi Radicals", '\u{A490}', '\u{A4CF}'),
    ("Lisu", '\u{A4D0}', '\u{A4FF}'),
    ("Vai", '\u{A500}', '\u{A63F}'),
    ("Cyrillic Extended-B", '\u{A640}', '\u{A69F}'),
    ("Bamum", '\u{A6A0}', '\u{A6FF}'),
    ("Modifier Tone Letters", '\u{A700}', '\u{A71F}'),
    ("Latin Extended-D", '\u{A720}', '\u{A7FF}'),
    ("Syloti Nagri", '\u{A800}', '\u{A82F}'),
    ("Common Indic Number Forms", '\u{A830}', '\u{A83F}'),
    ("Phags-pa", '\u{A840}', '\u{A87F}'),
    ("Saurashtra", '\u{A880}', '\u{A8DF}'),
    ("Devanagari Extended", '\u{A8E0}', '\u{A8FF}'),
    ("Kayah Li", '\u{A900}', '\u{A92F}'),
    ("Rejang", '\u{A930}', '\u{A95F}'),
    ("Hangul Jamo Extended-A", '\u{A960}', '\u{A97F}'),
    ("Javanese", '\u{A980}', '\u{A9DF}'),
    ("Myanmar Extended-B", '\u{A9E0}', '\u{A9FF}'),
    ("Cham", '\u{AA00}', '\u{AA5F}'),
    ("Myanmar Extended-A", '\u{AA60}', '\u{AA7F}'),
    ("Tai Viet", '\u{AA80}', '\u{AADF}'),
    ("Meetei Mayek Extensions", '\u{AAE0}', '\u{AAFF}'),
    ("Ethiopic Extended-A", '\u{AB00}', '\u{AB2F}'),
    ("Latin Extended-E", '\u{AB30}', '\u{AB6F}'),
    ("Cherokee Supplement", '\u{AB70}', '\u{ABBF}'),
    ("Meetei Mayek", '\u{ABC0}', '\u{ABFF}'),
    ("Hangul Syllables", '\u{AC00}', '\u{D7AF}'),
    ("Hangul Jamo Extended-B", '\u{D7B0}', '\u{D7FF}'),
    ("Private Use Area", '\u{E000}', '\u{F8FF}'),
    ("CJK Compatibility Ideographs", '\u{F900}', '\u{FAFF}'),
    ("Alphabetic Presentation Forms", '\u{FB00}', '\u{FB4F}'),
    ("Arabic Presentation Forms-A", '\u{FB50}', '\u{FDFF}'),
    ("Variation Selectors", '\u{FE00}', '\u{FE0F}'),
    ("Vertical Forms", '\u{FE10}', '\u{FE1F}'),
    ("Combining Half Marks", '\u{FE20}', '\u{FE2F}'),
    ("CJK Compatibility Forms", '\u{FE30}', '\u{FE4F}'),
    ("Small Form Variants", '\u{FE50}', '\u{FE6F}'),
    ("Arabic Presentation Forms-B", '\u{FE70}', '\u{FEFF}'),
    ("Halfwidth and Fullwidth Forms", '\u{FF00}', '\u{FFEF}'),
    ("Specials", '\u{FFF0}', '\u{FFFF}'),
    ("Linear B Syllabary", '\u{10000}', '\u{1007F}'),
    ("Linear B Ideograms", '\u{10080}', '\u{100FF}'),
    ("Aegean Numbers", '\u{10100}', '\u{1013F}'),
    ("Ancient Greek Numbers", '\u{10140}', '\u{1018F}'),
    ("Ancient Symbols", '\u{10190}', '\u{101CF}'),
    ("Phaistos Disc", '\u{101D0}', '\u{101FF}'),
    ("Lycian", '\u{10280}', '\u{1029F}'),
    ("Carian", '\u{102A0}', '\u{102DF}'),
    ("Coptic Epact Numbers", '\u{102E0}', '\u{102FF}'),
    ("Old Italic", '\u{10300}', '\u{1032F}'),
    ("Gothic", '\u{10330}', '\u{1034F}'),
    ("Old Permic", '\u{10350}', '\u{1037F}'),
    ("Ugaritic", '\u{10380}', '\u{1039F}'),
    ("Old Persian", '\u{103A0}', '\u{103DF}'),
    ("Deseret", '\u{10400}', '\u{1044F}'),
    ("Shavian", '\u{10450}', '\u{1047F}'),
    ("Osmanya", '\u{10480}', '\u{104AF}'),
    ("Osage", '\u{104B0}', '\u{104FF}'),
    ("Elbasan", '\u{10500}', '\u{1052F}'),
    ("Caucasian Albanian", '\u{10530}', '\u{1056F}'),
    ("Vithkuqi", '\u{10570}', '\u{105BF}'),
    ("Todhri", '\u{105C0}', '\u{105FF}'),
    ("Linear A", '\u{10600}', '\u{1077F}'),
    ("Latin Extended-F", '\u{10780}', '\u{107BF}'),
    ("Cypriot Syllabary", '\u{10800}', '\u{1083F}'),
    ("Imperial Aramaic", '\u{10840}', '\u{1085F}'),
    ("Palmyrene", '\u{10860}', '\u{1087F}'),
    ("Nabataean", '\u{10880}', '\u{108AF}'),
    ("Hatran", '\u{108E0}', '\u{108FF}'),
    ("Phoenician", '\u{10900}', '\u{1091F}'),
    ("Lydian", '\u{10920}', '\u{1093F}'),
    ("Meroitic Hieroglyphs", '\u{10980}', '\u{1099F}'),
    ("Meroitic Cursive", '\u{109A0}', '\u{109FF}'),
    ("Kharoshthi", '\u{10A00}', '\u{10A5F}'),
    ("Old South Arabian", '\u{10A60}', '\u{10A7F}'),
    ("Old North Arabian", '\u{10A80}', '\u{10A9F}'),
    ("Manichaean", '\u{10AC0}', '\u{10AFF}'),
    ("Avestan", '\u{10B00}', '\u{10B3F}'),
    ("Inscriptional Parthian", '\u{10B40}', '\u{10B5F}'),
    ("Inscriptional Pahlavi", '\u{10B60}', '\u{10B7F}'),
    ("Psalter Pahlavi", '\u{10B80}', '\u{10BAF}'),
    ("Old Turkic", '\u{10C00}', '\u{10C4F}'),
    ("Old Hungarian", '\u{10C80}', '\u{10CFF}'),
    ("Hanifi Rohingya", '\u{10D00}', '\u{10D3F}'),
    ("Garay", '\u{10D40}', '\u{10D8F}'),
    ("Rumi Numeral Symbols", '\u{10E60}', '\u{10E7F}'),
    ("Yezidi", '\u{10E80}', '\u{10EBF}'),
    ("Arabic Extended-C", '\u{10EC0}', '\u{10EFF}'),
    ("Old Sogdian", '\u{10F00}', '\u{10F2F}'),
    ("Sogdian", '\u{10F30}', '\u{10F6F}'),
    ("Old Uyghur", '\u{10F70}', '\u{10FAF}'),
    ("Chorasmian", '\u{10FB0}', '\u{10FDF}'),
    ("Elymaic", '\u{10FE0}', '\u{10FFF}'),
    ("Brahmi", '\u{11000}', '\u{1107F}'),
    ("Kaithi", '\u{11080}', '\u{110CF}'),
    ("Sora Sompeng", '\u{110D0}', '\u{110FF}'),
    ("Chakma", '\u{11100}', '\u{1114F}'),
    ("Mahajani", '\u{11150}', '\u{1117F}'),
    ("Sharada", '\u{11180}', '\u{111DF}'),
    ("Sinhala Archaic Numbers", '\u{111E0}', '\u{111FF}'),
    ("Khojki", '\u{11200}', '\u{1124F}'),
    ("Multani", '\u{11280}', '\u{112AF}'),
    ("Khudawadi", '\u{112B0}', '\u{112FF}'),
    ("Grantha", '\u{11300}', '\u{1137F}'),
    ("Tulu-Tigalari", '\u{11380}', '\u{113FF}'),
    ("Newa", '\u{11400}', '\u{1147F}'),
    ("Tirhuta", '\u{11480}', '\u{114DF}'),
    ("Siddham", '\u{11580}', '\u{115FF}'),
    ("Modi", '\u{11600}', '\u{1165F}'),
    ("Mongolian Supplement", '\u{11660}', '\u{1167F}'),
    ("Takri", '\u{11680}', '\u{116CF}'),
    ("Myanmar Extended-C", '\u{116D0}', '\u{116FF}'),
    ("Ahom", '\u{11700}', '\u{1174F}'),
    ("Dogra", '\u{11800}', '\u{1184F}'),
    ("Warang Citi", '\u{118A0}', '\u{118FF}'),
    ("Dives Akuru", '\u{11900}', '\u{1195F}'),
    ("Nandinagari", '\u{119A0}', '\u{119FF}'),
    ("Zanabazar Square", '\u{11A00}', '\u{11A4F}'),
    ("Soyombo", '\u{11A50}', '\u{11AAF}'),
    ("Unified Canadian Aboriginal Syllabics Extended-A", '\u{11AB0}', '\u{11ABF}'),
    ("Pau Cin Hau", '\u{11AC0}', '\u{11AFF}'),
    ("Devanagari Extended-A", '\u{11B00}', '\u{11B5F}'),
    ("Sunuwar", '\u{11BC0}', '\u{11BFF}'),
    ("Bhaiksuki", '\u{11C00}', '\u{11C6F}'),
    ("Marchen", '\u{11C70}', '\u{11CBF}'),
    ("Masaram Gondi", '\u{11D00}', '\u{11D5F}'),
    ("Gunjala Gondi", '\u{11D60}', '\u{11DAF}'),
    ("Makasar", '\u{11EE0}', '\u{11EFF}'),
    ("Kawi", '\u{11F00}', '\u{11F5F}'),
    ("Lisu Supplement", '\u{11FB0}', '\u{11FBF}'),
    ("Tamil Supplement", '\u{11FC0}', '\u{11FFF}'),
    ("Cuneiform", '\u{12000}', '\u{123FF}'),
    ("Cuneiform Numbers and Punctuation", '\u{12400}', '\u{1247F}'),
    ("Early Dynastic Cuneiform", '\u{12480}', '\u{1254F}'),
    ("Cypro-Minoan", '\u{12F90}', '\u{12FFF}'),
    ("Egyptian Hieroglyphs", '\u{13000}', '\u{1342F}'),
    ("Egyptian Hieroglyph Format Controls", '\u{13430}', '\u{1345F}'),
    ("Egyptian Hieroglyphs Extended-A", '\u{13460}', '\u{143FF}'),
    ("Anatolian Hieroglyphs", '\u{14400}', '\u{1467F}'),
    ("Gurung Khema", '\u{16100}', '\u{1613F}'),
    ("Bamum Supplement", '\u{16800}', '\u{16A3F}'),
    ("Mro", '\u{16A40}', '\u{16A6F}'),
    ("Tangsa", '\u{16A70}', '\u{16ACF}'),
    ("Bassa Vah", '\u{16AD0}', '\u{16AFF}'),
    ("Pahawh Hmong", '\u{16B00}', '\u{16B8F}'),
    ("Kirat Rai", '\u{16D40}', '\u{16D7F}'),
    ("Medefaidrin", '\u{16E40}', '\u{16E9F}'),
    ("Miao", '\u{16F00}', '\u{16F9F}'),
    ("Ideographic Symbols and Punctuation", '\u{16FE0}', '\u{16FFF}'),
    ("Tangut", '\u{17000}', '\u{187FF}'),
    ("Tangut Components", '\u{18800}', '\u{18AFF}'),
    ("Khitan Small Script", '\u{18B00}', '\u{18CFF}'),
    ("Tangut Supplement", '\u{18D00}', '\u{18D7F}'),
    ("Kana Extended-B", '\u{1AFF0}', '\u{1AFFF}'),
    ("Kana Supplement", '\u{1B000}', '\u{1B0FF}'),
    ("Kana Extended-A", '\u{1B100}', '\u{1B12F}'),
    ("Small Kana Extension", '\u{1B130}', '\u{1B16F}'),
    ("Nushu", '\u{1B170}', '\u{1B2FF}'),
    ("Duployan", '\u{1BC00}', '\u{1BC9F}'),
    ("Shorthand Format Controls", '\u{1BCA0}', '\u{1BCAF}'),
    ("Symbols for Legacy Computing Supplement", '\u{1CC00}', '\u{1CEBF}'),
    ("Znamenny Musical Notation", '\u{1CF00}', '\u{1CFCF}'),
    ("Byzantine Musical Symbols", '\u{1D000}', '\u{1D0FF}'),
    ("Musical Symbols", '\u{1D100}', '\u{1D1FF}'),
    ("Ancient Greek Musical Notation", '\u{1D200}', '\u{1D24F}'),
    ("Kaktovik Numerals", '\u{1D2C0}', '\u{1D2DF}'),
    ("Mayan Numerals", '\u{1D2E0}', '\u{1D2FF}'),
    ("Tai Xuan Jing Symbols", '\u{1D300}', '\u{1D35F}'),
    ("Counting Rod Numerals", '\u{1D360}', '\u{1D37F}'),
    ("Mathematical Alphanumeric Symbols", '\u{1D400}', '\u{1D7FF}'),
    ("Sutton SignWriting", '\u{1D800}', '\u{1DAAF}'),
    ("Latin Extended-G", '\u{1DF00}', '\u{1DFFF}'),
    ("Glagolitic Supplement", '\u{1E000}', '\u{1E02F}'),
    ("Cyrillic Extended-D", '\u{1E030}', '\u{1E08F}'),
    ("Nyiakeng Puachue Hmong", '\u{1E100}', '\u{1E14F}'),
    ("Toto", '\u{1E290}', '\u{1E2BF}'),
    ("Wancho", '\u{1E2C0}', '\u{1E2FF}'),
    ("Nag Mundari", '\u{1E4D0}', '\u{1E4FF}'),
    ("Ol Onal", '\u{1E5D0}', '\u{1E5FF}'),
    ("Ethiopic Extended-B", '\u{1E7E0}', '\u{1E7FF}'),
    ("Mende Kikakui", '\u{1E800}', '\u{1E8DF}'),
    ("Adlam", '\u{1E900}', '\u{1E95F}'),
    ("Indic Siyaq Numbers", '\u{1EC70}', '\u{1ECBF}'),
    ("Ottoman Siyaq Numbers", '\u{1ED00}', '\u{1ED4F}'),
    ("Arabic Mathematical Alphabetic Symbols", '\u{1EE00}', '\u{1EEFF}'),
    ("Mahjong Tiles", '\u{1F000}', '\u{1F02F}'),
    ("Domino Tiles", '\u{1F030}', '\u{1F09F}'),
    ("Playing Cards", '\u{1F0A0}', '\u{1F0FF}'),
    ("Enclosed Alphanumeric Supplement", '\u{1F100}', '\u{1F1FF}'),
    ("Enclosed Ideographic Supplement", '\u{1F200}', '\u{1F2FF}'),
    ("Miscellaneous Symbols and Pictographs", '\u{1F300}', '\u{1F5FF}'),
    ("Emoticons", '\u{1F600}', '\u{1F64F}'),
    ("Ornamental Dingbats", '\u{1F650}', '\u{1F67F}'),
    ("Transport and Map Symbols", '\u{1F680}', '\u{1F6FF}'),
    ("Alchemical Symbols", '\u{1F700}', '\u{1F77F}'),
    ("Geometric Shapes Extended", '\u{1F780}', '\u{1F7FF}'),
    ("Supplemental Arrows-C", '\u{1F800}', '\u{1F8FF}'),
    ("Supplemental Symbols and Pictographs", '\u{1F900}', '\u{1F9FF}'),
    ("Chess Symbols", '\u{1FA00}', '\u{1FA6F}'),
    ("Symbols and Pictographs Extended-A", '\u{1FA70}', '\u{1FAFF}'),
    ("Symbols for Legacy Computing", '\u{1FB00}', '\u{1FBFF}'),
    ("CJK Unified Ideographs Extension B", '\u{20000}', '\u{2A6DF}'),
    ("CJK Unified Ideographs Extension C", '\u{2A700}', '\u{2B73F}'),
    ("CJK Unified Ideographs Extension D", '\u{2B740}', '\u{2B81F}'),
    ("CJK Unified Ideographs Extension E", '\u{2B820}', '\u{2CEAF}'),
    ("CJK Unified Ideographs Extension F", '\u{2CEB0}', '\u{2EBEF}'),
    ("CJK Unified Ideographs Extension I", '\u{2EBF0}', '\u{2EE5F}'),
    ("CJK Compatibility Ideographs Supplement", '\u{2F800}', '\u{2FA1F}'),
    ("CJK Unified Ideographs Extension G", '\u{30000}', '\u{3134F}'),
    ("CJK Unified Ideographs Extension H", '\u{31350}', '\u{323AF}'),
    ("Tags", '\u{E0000}', '\u{E007F}'),
    ("Variation Selectors Supplement", '\u{E0100}', '\u{E01EF}'),
    ("Supplementary Private Use Area-A", '\u{F0000}', '\u{FFFFF}'),
    ("Supplementary Private Use Area-B", '\u{100000}', '\u{10FFFF}'),
];

/// The block in row `i` of the table.
pub open spec fn spec_block_at(i: int) -> BlockView {
    BlockView { name: UNICODE_BLOCKS[i].0@, first: UNICODE_BLOCKS[i].1, last: UNICODE_BLOCKS[i].2 }
}

/// Whether the table lists a block under `name`.
pub open spec fn is_block_name(name: Seq<char>) -> bool {
    exists|i: int| 0 <= i < BLOCK_COUNT && (#[trigger] spec_block_at(i)).name == name
}

/// Whether `block` is a row of the table.
pub open spec fn is_listed(block: BlockView) -> bool {
    exists|i: int| 0 <= i < BLOCK_COUNT && #[trigger] spec_block_at(i) == block
}

/// The first block from row `from` on that is listed under `name`.
pub open spec fn spec_find_from(name: Seq<char>, from: int) -> Option<BlockView>
    decreases BLOCK_COUNT - from,
{
    if from < 0 || from >= BLOCK_COUNT {
        None
    } else if spec_block_at(from).name == name {
        Some(spec_block_at(from))
    } else {
        spec_find_from(name, from + 1)
    }
}

/// The block that the table lists under `name`.
pub open spec fn spec_find_block(name: Seq<char>) -> Option<BlockView> {
    spec_find_from(name, 0)
}

/// What a search of the table finds: a listed block of the name asked for,
/// and nothing exactly when no block has that name.
pub proof fn lemma_find_block(name: Seq<char>, from: int)
    requires
        0 <= from <= BLOCK_COUNT,
    ensures
        match spec_find_from(name, from) {
            Some(block) => block.name == name && is_listed(block),
            None => forall|i: int| from <= i < BLOCK_COUNT ==> (#[trigger] spec_block_at(i)).name != name,
        },
    decreases BLOCK_COUNT - from,
{
    if from < BLOCK_COUNT {
        if spec_block_at(from).name != name {
            lemma_find_block(name, from + 1);
        }
    }
}

/// The block in row `i` of the table, if the table has that many rows.
pub fn block_at(i: usize) -> (block: Option<UnicodeBlock>)
    ensures
        block is Some <==> i < BLOCK_COUNT,
        block matches Some(b) ==> b@ == spec_block_at(i as int),
{
    if i < BLOCK_COUNT {
        let row = UNICODE_BLOCKS[i];
        Some(UnicodeBlock { name: row.0, first: row.1, last: row.2 })
    } else {
        None
    }
}

/// The block of the ASCII characters.
pub fn basic_latin() -> (block: UnicodeBlock)
    ensures
        block@ == spec_block_at(0),
{
    let row = UNICODE_BLOCKS[0];
    UnicodeBlock { name: row.0, first: row.1, last: row.2 }
}

/// Looks a block up by the name that the Unicode standard gives it.
pub fn find_block(name: &str) -> (block: Option<UnicodeBlock>)
    ensures
        match block {
            Some(b) => spec_find_block(name@) == Some(b@),
            None => spec_find_block(name@) is None,
        },
{
    let mut i: usize = 0;
    while i < BLOCK_COUNT
        invariant
            i <= BLOCK_COUNT,
            spec_find_block(name@) == spec_find_from(name@, i as int),
        decreases BLOCK_COUNT - i,
    {
        let row = UNICODE_BLOCKS[i];
        if str_eq(name, row.0) {
            return Some(UnicodeBlock { name: row.0, first: row.1, last: row.2 });
        }
        i += 1;
    }
    None
}

/// The blocks of the table lie in the order of the code space and do not
/// overlap: none is empty, and each begins behind the end of the one before.
pub proof fn lemma_blocks_in_order()
    ensures
        forall|i: int| 0 <= i < BLOCK_COUNT ==> (#[trigger] spec_block_at(i)).first <= spec_block_at(i).last,
        forall|i: int|
            0 <= i < BLOCK_COUNT - 1 ==> (#[trigger] spec_block_at(i)).last < spec_block_at(
                i + 1,
            ).first,
{
}

/// The shape that every name in the table has: it begins with a capital
/// letter, and its second character is no plus sign.
pub open spec fn is_name_shaped(name: Seq<char>) -> bool {
    name.len() >= 2 && 'A' <= name[0] <= 'Z' && name[1] != '+'
}

/// Every name in the table has the shape of a block name.
pub proof fn lemma_names_shaped()
    ensures
        forall|i: int| 0 <= i < BLOCK_COUNT ==> is_name_shaped(#[trigger] spec_block_at(i).name),
{
    reveal_strlit("Basic Latin");
    reveal_strlit("Latin-1 Supplement");
    reveal_strlit("Latin Extended-A");
    reveal_strlit("Latin Extended-B");
    reveal_strlit("IPA Extensions");
    reveal_strlit("Spacing Modifier Letters");
    reveal_strlit("Combining Diacritical Marks");
    reveal_strlit("Greek and Coptic");
    reveal_strlit("Cyrillic");
    reveal_strlit("Cyrillic Supplement");
    reveal_strlit("Armenian");
    reveal_strlit("Hebrew");
    reveal_strlit("Arabic");
    reveal_strlit("Syriac");
    reveal_strlit("Arabic Supplement");
    reveal_strlit("Thaana");
    reveal_strlit("NKo");
    reveal_strlit("Samaritan");
    reveal_strlit("Mandaic");
    reveal_strlit("Syriac Supplement");
    reveal_strlit("Arabic Extended-B");
    reveal_strlit("Arabic Extended-A");
    reveal_strlit("Devanagari");
    reveal_strlit("Bengali");
    reveal_strlit("Gurmukhi");
    reveal_strlit("Gujarati");
    reveal_strlit("Oriya");
    reveal_strlit("Tamil");
    reveal_strlit("Telugu");
    reveal_strlit("Kannada");
    reveal_strlit("Malayalam");
    reveal_strlit("Sinhala");
    reveal_strlit("Thai");
    reveal_strlit("Lao");
    reveal_strlit("Tibetan");
    reveal_strlit("Myanmar");
    reveal_strlit("Georgian");
    reveal_strlit("Hangul Jamo");
    reveal_strlit("Ethiopic");
    reveal_strlit("Ethiopic Supplement");
    reveal_strlit("Cherokee");
    reveal_strlit("Unified Canadian Aboriginal Syllabics");
    reveal_strlit("Ogham");
    reveal_strlit("Runic");
    reveal_strlit("Tagalog");
    reveal_strlit("Hanunoo");
    reveal_strlit("Buhid");
    reveal_strlit("Tagbanwa");
    reveal_strlit("Khmer");
    reveal_strlit("Mongolian");
    reveal_strlit("Unified Canadian Aboriginal Syllabics Extended");
    reveal_strlit("Limbu");
    reveal_strlit("Tai Le");
    reveal_strlit("New Tai Lue");
    reveal_strlit("Khmer Symbols");
    reveal_strlit("Buginese");
    reveal_strlit("Tai Tham");
    reveal_strlit("Combining Diacritical Marks Extended");
    reveal_strlit("Balinese");
    reveal_strlit("Sundanese");
    reveal_strlit("Batak");
    reveal_strlit("Lepcha");
    reveal_strlit("Ol Chiki");
    reveal_strlit("Cyrillic Extended-C");
    reveal_strlit("Georgian Extended");
    reveal_strlit("Sundanese Supplement");
    reveal_strlit("Vedic Extensions");
    reveal_strlit("Phonetic Extensions");
    reveal_strlit("Phonetic Extensions Supplement");
    reveal_strlit("Combining Diacritical Marks Supplement");
    reveal_strlit("Latin Extended Additional");
    reveal_strlit("Greek Extended");
    reveal_strlit("General Punctuation");
    reveal_strlit("Superscripts and Subscripts");
    reveal_strlit("Currency Symbols");
    reveal_strlit("Combining Diacritical Marks for Symbols");
    reveal_strlit("Letterlike Symbols");
    reveal_strlit("Number Forms");
    reveal_strlit("Arrows");
    reveal_strlit("Mathematical Operators");
    reveal_strlit("Miscellaneous Technical");
    reveal_strlit("Control Pictures");
    reveal_strlit("Optical Character Recognition");
    reveal_strlit("Enclosed Alphanumerics");
    reveal_strlit("Box Drawing");
    reveal_strlit("Block Elements");
    reveal_strlit("Geometric Shapes");
    reveal_strlit("Miscellaneous Symbols");
    reveal_strlit("Dingbats");
    reveal_strlit("Miscellaneous Mathematical Symbols-A");
    reveal_strlit("Supplemental Arrows-A");
    reveal_strlit("Braille Patterns");
    reveal_strlit("Supplemental Arrows-B");
    reveal_strlit("Miscellaneous Mathematical Symbols-B");
    reveal_strlit("Supplemental Mathematical Operators");
    reveal_strlit("Miscellaneous Symbols and Arrows");
    reveal_strlit("Glagolitic");
    reveal_strlit("Latin Extended-C");
    reveal_strlit("Coptic");
    reveal_strlit("Georgian Supplement");
    reveal_strlit("Tifinagh");
    reveal_strlit("Ethiopic Extended");
    reveal_strlit("Cyrillic Extended-A");
    reveal_strlit("Supplemental Punctuation");
    reveal_strlit("CJK Radicals Supplement");
    reveal_strlit("Kangxi Radicals");
    reveal_strlit("Ideographic Description Characters");
    reveal_strlit("CJK Symbols and Punctuation");
    reveal_strlit("Hiragana");
    reveal_strlit("Katakana");
    reveal_strlit("Bopomofo");
    reveal_strlit("Hangul Compatibility Jamo");
    reveal_strlit("Kanbun");
    reveal_strlit("Bopomofo Extended");
    reveal_strlit("CJK Strokes");
    reveal_strlit("Katakana Phonetic Extensions");
    reveal_strlit("Enclosed CJK Letters and Months");
    reveal_strlit("CJK Compatibility");
    reveal_strlit("CJK Unified Ideographs Extension A");
    reveal_strlit("Yijing Hexagram Symbols");
    reveal_strlit("CJK Unified Ideographs");
    reveal_strlit("Yi Syllables");
    reveal_strlit("Yi Radicals");
    reveal_strlit("Lisu");
    reveal_strlit("Vai");
    reveal_strlit("Cyrillic Extended-B");
    reveal_strlit("Bamum");
    reveal_strlit("Modifier Tone Letters");
    reveal_strlit("Latin Extended-D");
    reveal_strlit("Syloti Nagri");
    reveal_strlit("Common Indic Number Forms");
    reveal_strlit("Phags-pa");
    reveal_strlit("Saurashtra");
    reveal_strlit("Devanagari Extended");
    reveal_strlit("Kayah Li");
    reveal_strlit("Rejang");
    reveal_strlit("Hangul Jamo Extended-A");
    reveal_strlit("Javanese");
    reveal_strlit("Myanmar Extended-B");
    reveal_strlit("Cham");
    reveal_strlit("Myanmar Extended-A");
    reveal_strlit("Tai Viet");
    reveal_strlit("Meetei Mayek Extensions");
    reveal_strlit("Ethiopic Extended-A");
    reveal_strlit("Latin Extended-E");
    reveal_strlit("Cherokee Supplement");
    reveal_strlit("Meetei Mayek");
    reveal_strlit("Hangul Syllables");
    reveal_strlit("Hangul Jamo Extended-B");
    reveal_strlit("Private Use Area");
    reveal_strlit("CJK Compatibility Ideographs");
    reveal_strlit("Alphabetic Presentation Forms");
    reveal_strlit("Arabic Presentation Forms-A");
    reveal_strlit("Variation Selectors");
    reveal_strlit("Vertical Forms");
    reveal_strlit("Combining Half Marks");
    reveal_strlit("CJK Compatibility Forms");
    reveal_strlit("Small Form Variants");
    reveal_strlit("Arabic Presentation Forms-B");
    reveal_strlit("Halfwidth and Fullwidth Forms");
    reveal_strlit("Specials");
    reveal_strlit("Linear B Syllabary");
    reveal_strlit("Linear B Ideograms");
    reveal_strlit("Aegean Numbers");
    reveal_strlit("Ancient Greek Numbers");
    reveal_strlit("Ancient Symbols");
    reveal_strlit("Phaistos Disc");
    reveal_strlit("Lycian");
    reveal_strlit("Carian");
    reveal_strlit("Coptic Epact Numbers");
    reveal_strlit("Old Italic");
    reveal_strlit("Gothic");
    reveal_strlit("Old Permic");
    reveal_strlit("Ugaritic");
    reveal_strlit("Old Persian");
    reveal_strlit("Deseret");
    reveal_strlit("Shavian");
    reveal_strlit("Osmanya");
    reveal_strlit("Osage");
    reveal_strlit("Elbasan");
    reveal_strlit("Caucasian Albanian");
    reveal_strlit("Vithkuqi");
    reveal_strlit("Todhri");
    reveal_strlit("Linear A");
    reveal_strlit("Latin Extended-F");
    reveal_strlit("Cypriot Syllabary");
    reveal_strlit("Imperial Aramaic");
    reveal_strlit("Palmyrene");
    reveal_strlit("Nabataean");
    reveal_strlit("Hatran");
    reveal_strlit("Phoenician");
    reveal_strlit("Lydian");
    reveal_strlit("Meroitic Hieroglyphs");
    reveal_strlit("Meroitic Cursive");
    reveal_strlit("Kharoshthi");
    reveal_strlit("Old South Arabian");
    reveal_strlit("Old North Arabian");
    reveal_strlit("Manichaean");
    reveal_strlit("Avestan");
    reveal_strlit("Inscriptional Parthian");
    reveal_strlit("Inscriptional Pahlavi");
    reveal_strlit("Psalter Pahlavi");
    reveal_strlit("Old Turkic");
    reveal_strlit("Old Hungarian");
    reveal_strlit("Hanifi Rohingya");
    reveal_strlit("Garay");
    reveal_strlit("Rumi Numeral Symbols");
    reveal_strlit("Yezidi");
    reveal_strlit("Arabic Extended-C");
    reveal_strlit("Old Sogdian");
    reveal_strlit("Sogdian");
    reveal_strlit("Old Uyghur");
    reveal_strlit("Chorasmian");
    reveal_strlit("Elymaic");
    reveal_strlit("Brahmi");
    reveal_strlit("Kaithi");
    reveal_strlit("Sora Sompeng");
    reveal_strlit("Chakma");
    reveal_strlit("Mahajani");
    reveal_strlit("Sharada");
    reveal_strlit("Sinhala Archaic Numbers");
    reveal_strlit("Khojki");
    reveal_strlit("Multani");
    reveal_strlit("Khudawadi");
    reveal_strlit("Grantha");
    reveal_strlit("Tulu-Tigalari");
    reveal_strlit("Newa");
    reveal_strlit("Tirhuta");
    reveal_strlit("Siddham");
    reveal_strlit("Modi");
    reveal_strlit("Mongolian Supplement");
    reveal_strlit("Takri");
    reveal_strlit("Myanmar Extended-C");
    reveal_strlit("Ahom");
    reveal_strlit("Dogra");
    reveal_strlit("Warang Citi");
    reveal_strlit("Dives Akuru");
    reveal_strlit("Nandinagari");
    reveal_strlit("Zanabazar Square");
    reveal_strlit("Soyombo");
    reveal_strlit("Unified Canadian Aboriginal Syllabics Extended-A");
    reveal_strlit("Pau Cin Hau");
    reveal_strlit("Devanagari Extended-A");
    reveal_strlit("Sunuwar");
    reveal_strlit("Bhaiksuki");
    reveal_strlit("Marchen");
    reveal_strlit("Masaram Gondi");
    reveal_strlit("Gunjala Gondi");
    reveal_strlit("Makasar");
    reveal_strlit("Kawi");
    reveal_strlit("Lisu Supplement");
    reveal_strlit("Tamil Supplement");
    reveal_strlit("Cuneiform");
    reveal_strlit("Cuneiform Numbers and Punctuation");
    reveal_strlit("Early Dynastic Cuneiform");
    reveal_strlit("Cypro-Minoan");
    reveal_strlit("Egyptian Hieroglyphs");
    reveal_strlit("Egyptian Hieroglyph Format Controls");
    reveal_strlit("Egyptian Hieroglyphs Extended-A");
    reveal_strlit("Anatolian Hieroglyphs");
    reveal_strlit("Gurung Khema");
    reveal_strlit("Bamum Supplement");
    reveal_strlit("Mro");
    reveal_strlit("Tangsa");
    reveal_strlit("Bassa Vah");
    reveal_strlit("Pahawh Hmong");
    reveal_strlit("Kirat Rai");
    reveal_strlit("Medefaidrin");
    reveal_strlit("Miao");
    reveal_strlit("Ideographic Symbols and Punctuation");
    reveal_strlit("Tangut");
    reveal_strlit("Tangut Components");
    reveal_strlit("Khitan Small Script");
    reveal_strlit("Tangut Supplement");
    reveal_strlit("Kana Extended-B");
    reveal_strlit("Kana Supplement");
    reveal_strlit("Kana Extended-A");
    reveal_strlit("Small Kana Extension");
    reveal_strlit("Nushu");
    reveal_strlit("Duployan");
    reveal_strlit("Shorthand Format Controls");
    reveal_strlit("Symbols for Legacy Computing Supplement");
    reveal_strlit("Znamenny Musical Notation");
    reveal_strlit("Byzantine Musical Symbols");
    reveal_strlit("Musical Symbols");
    reveal_strlit("Ancient Greek Musical Notation");
    reveal_strlit("Kaktovik Numerals");
    reveal_strlit("Mayan Numerals");
    reveal_strlit("Tai Xuan Jing Symbols");
    reveal_strlit("Counting Rod Numerals");
    reveal_strlit("Mathematical Alphanumeric Symbols");
    reveal_strlit("Sutton SignWriting");
    reveal_strlit("Latin Extended-G");
    reveal_strlit("Glagolitic Supplement");
    reveal_strlit("Cyrillic Extended-D");
    reveal_strlit("Nyiakeng Puachue Hmong");
    reveal_strlit("Toto");
    reveal_strlit("Wancho");
    reveal_strlit("Nag Mundari");
    reveal_strlit("Ol Onal");
    reveal_strlit("Ethiopic Extended-B");
    reveal_strlit("Mende Kikakui");
    reveal_strlit("Adlam");
    reveal_strlit("Indic Siyaq Numbers");
    reveal_strlit("Ottoman Siyaq Numbers");
    reveal_strlit("Arabic Mathematical Alphabetic Symbols");
    reveal_strlit("Mahjong Tiles");
    reveal_strlit("Domino Tiles");
    reveal_strlit("Playing Cards");
    reveal_strlit("Enclosed Alphanumeric Supplement");
    reveal_strlit("Enclosed Ideographic Supplement");
    reveal_strlit("Miscellaneous Symbols and Pictographs");
    reveal_strlit("Emoticons");
    reveal_strlit("Ornamental Dingbats");
    reveal_strlit("Transport and Map Symbols");
    reveal_strlit("Alchemical Symbols");
    reveal_strlit("Geometric Shapes Extended");
    reveal_strlit("Supplemental Arrows-C");
    reveal_strlit("Supplemental Symbols and Pictographs");
    reveal_strlit("Chess Symbols");
    reveal_strlit("Symbols and Pictographs Extended-A");
    reveal_strlit("Symbols for Legacy Computing");
    reveal_strlit("CJK Unified Ideographs Extension B");
    reveal_strlit("CJK Unified Ideographs Extension C");
    reveal_strlit("CJK Unified Ideographs Extension D");
    reveal_strlit("CJK Unified Ideographs Extension E");
    reveal_strlit("CJK Unified Ideographs Extension F");
    reveal_strlit("CJK Unified Ideographs Extension I");
    reveal_strlit("CJK Compatibility Ideographs Supplement");
    reveal_strlit("CJK Unified Ideographs Extension G");
    reveal_strlit("CJK Unified Ideographs Extension H");
    reveal_strlit("Tags");
    reveal_strlit("Variation Selectors Supplement");
    reveal_strlit("Supplementary Private Use Area-A");
    reveal_strlit("Supplementary Private Use Area-B");
}

} // verus!
