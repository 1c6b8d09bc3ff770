//! Text written to the terminal around kitty images: cursor positioning and the unicode
//! placeholder cells through which tmux shows an image.
use vstd::prelude::*;

use crate::decimal::push_decimal;
use crate::kitty::Position;

verus! {

/// The character kitty draws image cells for.
pub open spec fn placeholder_char() -> char {
    '\u{10EEEE}'
}

/// Marks `8 * c` to `8 * c + 7` of the row/column diacritics.
pub open spec fn diacritics_chunk(c: int) -> Seq<char> {
    if c == 0 {
        seq!['\u{0305}', '\u{030D}', '\u{030E}', '\u{0310}', '\u{0312}', '\u{033D}', '\u{033E}', '\u{033F}']
    } else if c == 1 {
        seq!['\u{0346}', '\u{034A}', '\u{034B}', '\u{034C}', '\u{0350}', '\u{0351}', '\u{0352}', '\u{0357}']
    } else if c == 2 {
        seq!['\u{035B}', '\u{0363}', '\u{0364}', '\u{0365}', '\u{0366}', '\u{0367}', '\u{0368}', '\u{0369}']
    } else if c == 3 {
        seq!['\u{036A}', '\u{036B}', '\u{036C}', '\u{036D}', '\u{036E}', '\u{036F}', '\u{0483}', '\u{0484}']
    } else if c == 4 {
        seq!['\u{0485}', '\u{0486}', '\u{0487}', '\u{0592}', '\u{0593}', '\u{0594}', '\u{0595}', '\u{0597}']
    } else if c == 5 {
        seq!['\u{0598}', '\u{0599}', '\u{059C}', '\u{059D}', '\u{059E}', '\u{059F}', '\u{05A0}', '\u{05A1}']
    } else if c == 6 {
        seq!['\u{05A8}', '\u{05A9}', '\u{05AB}', '\u{05AC}', '\u{05AF}', '\u{05C4}', '\u{0610}', '\u{0611}']
    } else if c == 7 {
        seq!['\u{0612}', '\u{0613}', '\u{0614}', '\u{0615}', '\u{0616}', '\u{0617}', '\u{0657}', '\u{0658}']
    } else if c == 8 {
        seq!['\u{0659}', '\u{065A}', '\u{065B}', '\u{065D}', '\u{065E}', '\u{06D6}', '\u{06D7}', '\u{06D8}']
    } else if c == 9 {
        seq!['\u{06D9}', '\u{06DA}', '\u{06DB}', '\u{06DC}', '\u{06DF}', '\u{06E0}', '\u{06E1}', '\u{06E2}']
    } else if c == 10 {
        seq!['\u{06E4}', '\u{06E7}', '\u{06E8}', '\u{06EB}', '\u{06EC}', '\u{0730}', '\u{0732}', '\u{0733}']
    } else if c == 11 {
        seq!['\u{0735}', '\u{0736}', '\u{073A}', '\u{073D}', '\u{073F}', '\u{0740}', '\u{0741}', '\u{0743}']
    } else if c == 12 {
        seq!['\u{0745}', '\u{0747}', '\u{0749}', '\u{074A}', '\u{07EB}', '\u{07EC}', '\u{07ED}', '\u{07EE}']
    } else if c == 13 {
        seq!['\u{07EF}', '\u{07F0}', '\u{07F1}', '\u{07F3}', '\u{0816}', '\u{0817}', '\u{0818}', '\u{0819}']
    } else if c == 14 {
        seq!['\u{081B}', '\u{081C}', '\u{081D}', '\u{081E}', '\u{081F}', '\u{0820}', '\u{0821}', '\u{0822}']
    } else if c == 15 {
        seq!['\u{0823}', '\u{0825}', '\u{0826}', '\u{0827}', '\u{0829}', '\u{082A}', '\u{082B}', '\u{082C}']
    } else if c == 16 {
        seq!['\u{082D}', '\u{0951}', '\u{0953}', '\u{0954}', '\u{0F82}', '\u{0F83}', '\u{0F86}', '\u{0F87}']
    } else if c == 17 {
        seq!['\u{135D}', '\u{135E}', '\u{135F}', '\u{17DD}', '\u{193A}', '\u{1A17}', '\u{1A75}', '\u{1A76}']
    } else if c == 18 {
        seq!['\u{1A77}', '\u{1A78}', '\u{1A79}', '\u{1A7A}', '\u{1A7B}', '\u{1A7C}', '\u{1B6B}', '\u{1B6D}']
    } else if c == 19 {
        seq!['\u{1B6E}', '\u{1B6F}', '\u{1B70}', '\u{1B71}', '\u{1B72}', '\u{1B73}', '\u{1CD0}', '\u{1CD1}']
    } else if c == 20 {
        seq!['\u{1CD2}', '\u{1CDA}', '\u{1CDB}', '\u{1CE0}', '\u{1DC0}', '\u{1DC1}', '\u{1DC3}', '\u{1DC4}']
    } else if c == 21 {
        seq!['\u{1DC5}', '\u{1DC6}', '\u{1DC7}', '\u{1DC8}', '\u{1DC9}', '\u{1DCB}', '\u{1DCC}', '\u{1DD1}']
    } else if c == 22 {
        seq!['\u{1DD2}', '\u{1DD3}', '\u{1DD4}', '\u{1DD5}', '\u{1DD6}', '\u{1DD7}', '\u{1DD8}', '\u{1DD9}']
    } else if c == 23 {
        seq!['\u{1DDA}', '\u{1DDB}', '\u{1DDC}', '\u{1DDD}', '\u{1DDE}', '\u{1DDF}', '\u{1DE0}', '\u{1DE1}']
    } else if c == 24 {
        seq!['\u{1DE2}', '\u{1DE3}', '\u{1DE4}', '\u{1DE5}', '\u{1DE6}', '\u{1DFE}', '\u{20D0}', '\u{20D1}']
    } else if c == 25 {
        seq!['\u{20D4}', '\u{20D5}', '\u{20D6}', '\u{20D7}', '\u{20DB}', '\u{20DC}', '\u{20E1}', '\u{20E7}']
    } else if c == 26 {
        seq!['\u{20E9}', '\u{20F0}', '\u{2CEF}', '\u{2CF0}', '\u{2CF1}', '\u{2DE0}', '\u{2DE1}', '\u{2DE2}']
    } else if c == 27 {
        seq!['\u{2DE3}', '\u{2DE4}', '\u{2DE5}', '\u{2DE6}', '\u{2DE7}', '\u{2DE8}', '\u{2DE9}', '\u{2DEA}']
    } else if c == 28 {
        seq!['\u{2DEB}', '\u{2DEC}', '\u{2DED}', '\u{2DEE}', '\u{2DEF}', '\u{2DF0}', '\u{2DF1}', '\u{2DF2}']
    } else if c == 29 {
        seq!['\u{2DF3}', '\u{2DF4}', '\u{2DF5}', '\u{2DF6}', '\u{2DF7}', '\u{2DF8}', '\u{2DF9}', '\u{2DFA}']
    } else if c == 30 {
        seq!['\u{2DFB}', '\u{2DFC}', '\u{2DFD}', '\u{2DFE}', '\u{2DFF}', '\u{A66F}', '\u{A67C}', '\u{A67D}']
    } else {
        seq!['\u{A6F0}', '\u{A6F1}', '\u{A8E0}', '\u{A8E1}', '\u{A8E2}', '\u{A8E3}', '\u{A8E4}', '\u{A8E5}']
    }
}

/// The combining marks that number rows and columns of placeholder cells (kitty's
/// rowcolumn-diacritics list: 256 combining marks of class 230).
pub open spec fn row_column_diacritics() -> Seq<char> {
    Seq::new(256, |i: int| diacritics_chunk(i / 8)[i % 8])
}

/// The table of [`row_column_diacritics`].
pub fn diacritics_table() -> (table: [char; 256])
    ensures
        table@ == row_column_diacritics(),
{
    let table: [char; 256] = [
            '\u{0305}', '\u{030D}', '\u{030E}', '\u{0310}', '\u{0312}', '\u{033D}', '\u{033E}', '\u{033F}',
            '\u{0346}', '\u{034A}', '\u{034B}', '\u{034C}', '\u{0350}', '\u{0351}', '\u{0352}', '\u{0357}',
            '\u{035B}', '\u{0363}', '\u{0364}', '\u{0365}', '\u{0366}', '\u{0367}', '\u{0368}', '\u{0369}',
            '\u{036A}', '\u{036B}', '\u{036C}', '\u{036D}', '\u{036E}', '\u{036F}', '\u{0483}', '\u{0484}',
            '\u{0485}', '\u{0486}', '\u{0487}', '\u{0592}', '\u{0593}', '\u{0594}', '\u{0595}', '\u{0597}',
            '\u{0598}', '\u{0599}', '\u{059C}', '\u{059D}', '\u{059E}', '\u{059F}', '\u{05A0}', '\u{05A1}',
            '\u{05A8}', '\u{05A9}', '\u{05AB}', '\u{05AC}', '\u{05AF}', '\u{05C4}', '\u{0610}', '\u{0611}',
            '\u{0612}', '\u{0613}', '\u{0614}', '\u{0615}', '\u{0616}', '\u{0617}', '\u{0657}', '\u{0658}',
            '\u{0659}', '\u{065A}', '\u{065B}', '\u{065D}', '\u{065E}', '\u{06D6}', '\u{06D7}', '\u{06D8}',
            '\u{06D9}', '\u{06DA}', '\u{06DB}', '\u{06DC}', '\u{06DF}', '\u{06E0}', '\u{06E1}', '\u{06E2}',
            '\u{06E4}', '\u{06E7}', '\u{06E8}', '\u{06EB}', '\u{06EC}', '\u{0730}', '\u{0732}', '\u{0733}',
            '\u{0735}', '\u{0736}', '\u{073A}', '\u{073D}', '\u{073F}', '\u{0740}', '\u{0741}', '\u{0743}',
            '\u{0745}', '\u{0747}', '\u{0749}', '\u{074A}', '\u{07EB}', '\u{07EC}', '\u{07ED}', '\u{07EE}',
            '\u{07EF}', '\u{07F0}', '\u{07F1}', '\u{07F3}', '\u{0816}', '\u{0817}', '\u{0818}', '\u{0819}',
            '\u{081B}', '\u{081C}', '\u{081D}', '\u{081E}', '\u{081F}', '\u{0820}', '\u{0821}', '\u{0822}',
            '\u{0823}', '\u{0825}', '\u{0826}', '\u{0827}', '\u{0829}', '\u{082A}', '\u{082B}', '\u{082C}',
            '\u{082D}', '\u{0951}', '\u{0953}', '\u{0954}', '\u{0F82}', '\u{0F83}', '\u{0F86}', '\u{0F87}',
            '\u{135D}', '\u{135E}', '\u{135F}', '\u{17DD}', '\u{193A}', '\u{1A17}', '\u{1A75}', '\u{1A76}',
            '\u{1A77}', '\u{1A78}', '\u{1A79}', '\u{1A7A}', '\u{1A7B}', '\u{1A7C}', '\u{1B6B}', '\u{1B6D}',
            '\u{1B6E}', '\u{1B6F}', '\u{1B70}', '\u{1B71}', '\u{1B72}', '\u{1B73}', '\u{1CD0}', '\u{1CD1}',
            '\u{1CD2}', '\u{1CDA}', '\u{1CDB}', '\u{1CE0}', '\u{1DC0}', '\u{1DC1}', '\u{1DC3}', '\u{1DC4}',
            '\u{1DC5}', '\u{1DC6}', '\u{1DC7}', '\u{1DC8}', '\u{1DC9}', '\u{1DCB}', '\u{1DCC}', '\u{1DD1}',
            '\u{1DD2}', '\u{1DD3}', '\u{1DD4}', '\u{1DD5}', '\u{1DD6}', '\u{1DD7}', '\u{1DD8}', '\u{1DD9}',
            '\u{1DDA}', '\u{1DDB}', '\u{1DDC}', '\u{1DDD}', '\u{1DDE}', '\u{1DDF}', '\u{1DE0}', '\u{1DE1}',
            '\u{1DE2}', '\u{1DE3}', '\u{1DE4}', '\u{1DE5}', '\u{1DE6}', '\u{1DFE}', '\u{20D0}', '\u{20D1}',
            '\u{20D4}', '\u{20D5}', '\u{20D6}', '\u{20D7}', '\u{20DB}', '\u{20DC}', '\u{20E1}', '\u{20E7}',
            '\u{20E9}', '\u{20F0}', '\u{2CEF}', '\u{2CF0}', '\u{2CF1}', '\u{2DE0}', '\u{2DE1}', '\u{2DE2}',
            '\u{2DE3}', '\u{2DE4}', '\u{2DE5}', '\u{2DE6}', '\u{2DE7}', '\u{2DE8}', '\u{2DE9}', '\u{2DEA}',
            '\u{2DEB}', '\u{2DEC}', '\u{2DED}', '\u{2DEE}', '\u{2DEF}', '\u{2DF0}', '\u{2DF1}', '\u{2DF2}',
            '\u{2DF3}', '\u{2DF4}', '\u{2DF5}', '\u{2DF6}', '\u{2DF7}', '\u{2DF8}', '\u{2DF9}', '\u{2DFA}',
            '\u{2DFB}', '\u{2DFC}', '\u{2DFD}', '\u{2DFE}', '\u{2DFF}', '\u{A66F}', '\u{A67C}', '\u{A67D}',
            '\u{A6F0}', '\u{A6F1}', '\u{A8E0}', '\u{A8E1}', '\u{A8E2}', '\u{A8E3}', '\u{A8E4}', '\u{A8E5}',
    ];
    proof {
        assert(table@ =~= row_column_diacritics());
    }
    table
}

/// Whether the code points of `s` strictly increase.
pub open spec fn strictly_increasing(s: Seq<char>) -> bool {
    forall|i: int, j: int| 0 <= i < j < s.len() ==> (s[i] as u32) < (s[j] as u32)
}

proof fn lemma_diacritics_adjacent_0_64()
    ensures
        forall|k: int|
            0 <= k < 64 ==> (#[trigger] row_column_diacritics()[k] as u32) < (
            row_column_diacritics()[k + 1] as u32),
{
    let d = row_column_diacritics();
    assert((d[0] as u32) < (d[1] as u32));
    assert((d[1] as u32) < (d[2] as u32));
    assert((d[2] as u32) < (d[3] as u32));
    assert((d[3] as u32) < (d[4] as u32));
    assert((d[4] as u32) < (d[5] as u32));
    assert((d[5] as u32) < (d[6] as u32));
    assert((d[6] as u32) < (d[7] as u32));
    assert((d[7] as u32) < (d[8] as u32));
    assert((d[8] as u32) < (d[9] as u32));
    assert((d[9] as u32) < (d[10] as u32));
    assert((d[10] as u32) < (d[11] as u32));
    assert((d[11] as u32) < (d[12] as u32));
    assert((d[12] as u32) < (d[13] as u32));
    assert((d[13] as u32) < (d[14] as u32));
    assert((d[14] as u32) < (d[15] as u32));
    assert((d[15] as u32) < (d[16] as u32));
    assert((d[16] as u32) < (d[17] as u32));
    assert((d[17] as u32) < (d[18] as u32));
    assert((d[18] as u32) < (d[19] as u32));
    assert((d[19] as u32) < (d[20] as u32));
    assert((d[20] as u32) < (d[21] as u32));
    assert((d[21] as u32) < (d[22] as u32));
    assert((d[22] as u32) < (d[23] as u32));
    assert((d[23] as u32) < (d[24] as u32));
    assert((d[24] as u32) < (d[25] as u32));
    assert((d[25] as u32) < (d[26] as u32));
    assert((d[26] as u32) < (d[27] as u32));
    assert((d[27] as u32) < (d[28] as u32));
    assert((d[28] as u32) < (d[29] as u32));
    assert((d[29] as u32) < (d[30] as u32));
    assert((d[30] as u32) < (d[31] as u32));
    assert((d[31] as u32) < (d[32] as u32));
    assert((d[32] as u32) < (d[33] as u32));
    assert((d[33] as u32) < (d[34] as u32));
    assert((d[34] as u32) < (d[35] as u32));
    assert((d[35] as u32) < (d[36] as u32));
    assert((d[36] as u32) < (d[37] as u32));
    assert((d[37] as u32) < (d[38] as u32));
    assert((d[38] as u32) < (d[39] as u32));
    assert((d[39] as u32) < (d[40] as u32));
    assert((d[40] as u32) < (d[41] as u32));
    assert((d[41] as u32) < (d[42] as u32));
    assert((d[42] as u32) < (d[43] as u32));
    assert((d[43] as u32) < (d[44] as u32));
    assert((d[44] as u32) < (d[45] as u32));
    assert((d[45] as u32) < (d[46] as u32));
    assert((d[46] as u32) < (d[47] as u32));
    assert((d[47] as u32) < (d[48] as u32));
    assert((d[48] as u32) < (d[49] as u32));
    assert((d[49] as u32) < (d[50] as u32));
    assert((d[50] as u32) < (d[51] as u32));
    assert((d[51] as u32) < (d[52] as u32));
    assert((d[52] as u32) < (d[53] as u32));
    assert((d[53] as u32) < (d[54] as u32));
    assert((d[54] as u32) < (d[55] as u32));
    assert((d[55] as u32) < (d[56] as u32));
    assert((d[56] as u32) < (d[57] as u32));
    assert((d[57] as u32) < (d[58] as u32));
    assert((d[58] as u32) < (d[59] as u32));
    assert((d[59] as u32) < (d[60] as u32));
    assert((d[60] as u32) < (d[61] as u32));
    assert((d[61] as u32) < (d[62] as u32));
    assert((d[62] as u32) < (d[63] as u32));
    assert((d[63] as u32) < (d[64] as u32));
    assert forall|k: int| 0 <= k < 64 implies (#[trigger] d[k] as u32) < (d[k + 1] as u32) by {
        if k == 0 {
        } else if k == 1 {
        } else if k == 2 {
        } else if k == 3 {
        } else if k == 4 {
        } else if k == 5 {
        } else if k == 6 {
        } else if k == 7 {
        } else if k == 8 {
        } else if k == 9 {
        } else if k == 10 {
        } else if k == 11 {
        } else if k == 12 {
        } else if k == 13 {
        } else if k == 14 {
        } else if k == 15 {
        } else if k == 16 {
        } else if k == 17 {
        } else if k == 18 {
        } else if k == 19 {
        } else if k == 20 {
        } else if k == 21 {
        } else if k == 22 {
        } else if k == 23 {
        } else if k == 24 {
        } else if k == 25 {
        } else if k == 26 {
        } else if k == 27 {
        } else if k == 28 {
        } else if k == 29 {
        } else if k == 30 {
        } else if k == 31 {
        } else if k == 32 {
        } else if k == 33 {
        } else if k == 34 {
        } else if k == 35 {
        } else if k == 36 {
        } else if k == 37 {
        } else if k == 38 {
        } else if k == 39 {
        } else if k == 40 {
        } else if k == 41 {
        } else if k == 42 {
        } else if k == 43 {
        } else if k == 44 {
        } else if k == 45 {
        } else if k == 46 {
        } else if k == 47 {
        } else if k == 48 {
        } else if k == 49 {
        } else if k == 50 {
        } else if k == 51 {
        } else if k == 52 {
        } else if k == 53 {
        } else if k == 54 {
        } else if k == 55 {
        } else if k == 56 {
        } else if k == 57 {
        } else if k == 58 {
        } else if k == 59 {
        } else if k == 60 {
        } else if k == 61 {
        } else if k == 62 {
        } else {
        }
    }
}

proof fn lemma_diacritics_adjacent_64_128()
    ensures
        forall|k: int|
            64 <= k < 128 ==> (#[trigger] row_column_diacritics()[k] as u32) < (
            row_column_diacritics()[k + 1] as u32),
{
    let d = row_column_diacritics();
    assert((d[64] as u32) < (d[65] as u32));
    assert((d[65] as u32) < (d[66] as u32));
    assert((d[66] as u32) < (d[67] as u32));
    assert((d[67] as u32) < (d[68] as u32));
    assert((d[68] as u32) < (d[69] as u32));
    assert((d[69] as u32) < (d[70] as u32));
    assert((d[70] as u32) < (d[71] as u32));
    assert((d[71] as u32) < (d[72] as u32));
    assert((d[72] as u32) < (d[73] as u32));
    assert((d[73] as u32) < (d[74] as u32));
    assert((d[74] as u32) < (d[75] as u32));
    assert((d[75] as u32) < (d[76] as u32));
    assert((d[76] as u32) < (d[77] as u32));
    assert((d[77] as u32) < (d[78] as u32));
    assert((d[78] as u32) < (d[79] as u32));
    assert((d[79] as u32) < (d[80] as u32));
    assert((d[80] as u32) < (d[81] as u32));
    assert((d[81] as u32) < (d[82] as u32));
    assert((d[82] as u32) < (d[83] as u32));
    assert((d[83] as u32) < (d[84] as u32));
    assert((d[84] as u32) < (d[85] as u32));
    assert((d[85] as u32) < (d[86] as u32));
    assert((d[86] as u32) < (d[87] as u32));
    assert((d[87] as u32) < (d[88] as u32));
    assert((d[88] as u32) < (d[89] as u32));
    assert((d[89] as u32) < (d[90] as u32));
    assert((d[90] as u32) < (d[91] as u32));
    assert((d[91] as u32) < (d[92] as u32));
    assert((d[92] as u32) < (d[93] as u32));
    assert((d[93] as u32) < (d[94] as u32));
    assert((d[94] as u32) < (d[95] as u32));
    assert((d[95] as u32) < (d[96] as u32));
    assert((d[96] as u32) < (d[97] as u32));
    assert((d[97] as u32) < (d[98] as u32));
    assert((d[98] as u32) < (d[99] as u32));
    assert((d[99] as u32) < (d[100] as u32));
    assert((d[100] as u32) < (d[101] as u32));
    assert((d[101] as u32) < (d[102] as u32));
    assert((d[102] as u32) < (d[103] as u32));
    assert((d[103] as u32) < (d[104] as u32));
    assert((d[104] as u32) < (d[105] as u32));
    assert((d[105] as u32) < (d[106] as u32));
    assert((d[106] as u32) < (d[107] as u32));
    assert((d[107] as u32) < (d[108] as u32));
    assert((d[108] as u32) < (d[109] as u32));
    assert((d[109] as u32) < (d[110] as u32));
    assert((d[110] as u32) < (d[111] as u32));
    assert((d[111] as u32) < (d[112] as u32));
    assert((d[112] as u32) < (d[113] as u32));
    assert((d[113] as u32) < (d[114] as u32));
    assert((d[114] as u32) < (d[115] as u32));
    assert((d[115] as u32) < (d[116] as u32));
    assert((d[116] as u32) < (d[117] as u32));
    assert((d[117] as u32) < (d[118] as u32));
    assert((d[118] as u32) < (d[119] as u32));
    assert((d[119] as u32) < (d[120] as u32));
    assert((d[120] as u32) < (d[121] as u32));
    assert((d[121] as u32) < (d[122] as u32));
    assert((d[122] as u32) < (d[123] as u32));
    assert((d[123] as u32) < (d[124] as u32));
    assert((d[124] as u32) < (d[125] as u32));
    assert((d[125] as u32) < (d[126] as u32));
    assert((d[126] as u32) < (d[127] as u32));
    assert((d[127] as u32) < (d[128] as u32));
    assert forall|k: int| 64 <= k < 128 implies (#[trigger] d[k] as u32) < (d[k + 1] as u32) by {
        if k == 64 {
        } else if k == 65 {
        } else if k == 66 {
        } else if k == 67 {
        } else if k == 68 {
        } else if k == 69 {
        } else if k == 70 {
        } else if k == 71 {
        } else if k == 72 {
        } else if k == 73 {
        } else if k == 74 {
        } else if k == 75 {
        } else if k == 76 {
        } else if k == 77 {
        } else if k == 78 {
        } else if k == 79 {
        } else if k == 80 {
        } else if k == 81 {
        } else if k == 82 {
        } else if k == 83 {
        } else if k == 84 {
        } else if k == 85 {
        } else if k == 86 {
        } else if k == 87 {
        } else if k == 88 {
        } else if k == 89 {
        } else if k == 90 {
        } else if k == 91 {
        } else if k == 92 {
        } else if k == 93 {
        } else if k == 94 {
        } else if k == 95 {
        } else if k == 96 {
        } else if k == 97 {
        } else if k == 98 {
        } else if k == 99 {
        } else if k == 100 {
        } else if k == 101 {
        } else if k == 102 {
        } else if k == 103 {
        } else if k == 104 {
        } else if k == 105 {
        } else if k == 106 {
        } else if k == 107 {
        } else if k == 108 {
        } else if k == 109 {
        } else if k == 110 {
        } else if k == 111 {
        } else if k == 112 {
        } else if k == 113 {
        } else if k == 114 {
        } else if k == 115 {
        } else if k == 116 {
        } else if k == 117 {
        } else if k == 118 {
        } else if k == 119 {
        } else if k == 120 {
        } else if k == 121 {
        } else if k == 122 {
        } else if k == 123 {
        } else if k == 124 {
        } else if k == 125 {
        } else if k == 126 {
        } else {
        }
    }
}

proof fn lemma_diacritics_adjacent_128_192()
    ensures
        forall|k: int|
            128 <= k < 192 ==> (#[trigger] row_column_diacritics()[k] as u32) < (
            row_column_diacritics()[k + 1] as u32),
{
    let d = row_column_diacritics();
    assert((d[128] as u32) < (d[129] as u32));
    assert((d[129] as u32) < (d[130] as u32));
    assert((d[130] as u32) < (d[131] as u32));
    assert((d[131] as u32) < (d[132] as u32));
    assert((d[132] as u32) < (d[133] as u32));
    assert((d[133] as u32) < (d[134] as u32));
    assert((d[134] as u32) < (d[135] as u32));
    assert((d[135] as u32) < (d[136] as u32));
    assert((d[136] as u32) < (d[137] as u32));
    assert((d[137] as u32) < (d[138] as u32));
    assert((d[138] as u32) < (d[139] as u32));
    assert((d[139] as u32) < (d[140] as u32));
    assert((d[140] as u32) < (d[141] as u32));
    assert((d[141] as u32) < (d[142] as u32));
    assert((d[142] as u32) < (d[143] as u32));
    assert((d[143] as u32) < (d[144] as u32));
    assert((d[144] as u32) < (d[145] as u32));
    assert((d[145] as u32) < (d[146] as u32));
    assert((d[146] as u32) < (d[147] as u32));
    assert((d[147] as u32) < (d[148] as u32));
    assert((d[148] as u32) < (d[149] as u32));
    assert((d[149] as u32) < (d[150] as u32));
    assert((d[150] as u32) < (d[151] as u32));
    assert((d[151] as u32) < (d[152] as u32));
    assert((d[152] as u32) < (d[153] as u32));
    assert((d[153] as u32) < (d[154] as u32));
    assert((d[154] as u32) < (d[155] as u32));
    assert((d[155] as u32) < (d[156] as u32));
    assert((d[156] as u32) < (d[157] as u32));
    assert((d[157] as u32) < (d[158] as u32));
    assert((d[158] as u32) < (d[159] as u32));
    assert((d[159] as u32) < (d[160] as u32));
    assert((d[160] as u32) < (d[161] as u32));
    assert((d[161] as u32) < (d[162] as u32));
    assert((d[162] as u32) < (d[163] as u32));
    assert((d[163] as u32) < (d[164] as u32));
    assert((d[164] as u32) < (d[165] as u32));
    assert((d[165] as u32) < (d[166] as u32));
    assert((d[166] as u32) < (d[167] as u32));
    assert((d[167] as u32) < (d[168] as u32));
    assert((d[168] as u32) < (d[169] as u32));
    assert((d[169] as u32) < (d[170] as u32));
    assert((d[170] as u32) < (d[171] as u32));
    assert((d[171] as u32) < (d[172] as u32));
    assert((d[172] as u32) < (d[173] as u32));
    assert((d[173] as u32) < (d[174] as u32));
    assert((d[174] as u32) < (d[175] as u32));
    assert((d[175] as u32) < (d[176] as u32));
    assert((d[176] as u32) < (d[177] as u32));
    assert((d[177] as u32) < (d[178] as u32));
    assert((d[178] as u32) < (d[179] as u32));
    assert((d[179] as u32) < (d[180] as u32));
    assert((d[180] as u32) < (d[181] as u32));
    assert((d[181] as u32) < (d[182] as u32));
    assert((d[182] as u32) < (d[183] as u32));
    assert((d[183] as u32) < (d[184] as u32));
    assert((d[184] as u32) < (d[185] as u32));
    assert((d[185] as u32) < (d[186] as u32));
    assert((d[186] as u32) < (d[187] as u32));
    assert((d[187] as u32) < (d[188] as u32));
    assert((d[188] as u32) < (d[189] as u32));
    assert((d[189] as u32) < (d[190] as u32));
    assert((d[190] as u32) < (d[191] as u32));
    assert((d[191] as u32) < (d[192] as u32));
    assert forall|k: int| 128 <= k < 192 implies (#[trigger] d[k] as u32) < (d[k + 1] as u32) by {
        if k == 128 {
        } else if k == 129 {
        } else if k == 130 {
        } else if k == 131 {
        } else if k == 132 {
        } else if k == 133 {
        } else if k == 134 {
        } else if k == 135 {
        } else if k == 136 {
        } else if k == 137 {
        } else if k == 138 {
        } else if k == 139 {
        } else if k == 140 {
        } else if k == 141 {
        } else if k == 142 {
        } else if k == 143 {
        } else if k == 144 {
        } else if k == 145 {
        } else if k == 146 {
        } else if k == 147 {
        } else if k == 148 {
        } else if k == 149 {
        } else if k == 150 {
        } else if k == 151 {
        } else if k == 152 {
        } else if k == 153 {
        } else if k == 154 {
        } else if k == 155 {
        } else if k == 156 {
        } else if k == 157 {
        } else if k == 158 {
        } else if k == 159 {
        } else if k == 160 {
        } else if k == 161 {
        } else if k == 162 {
        } else if k == 163 {
        } else if k == 164 {
        } else if k == 165 {
        } else if k == 166 {
        } else if k == 167 {
        } else if k == 168 {
        } else if k == 169 {
        } else if k == 170 {
        } else if k == 171 {
        } else if k == 172 {
        } else if k == 173 {
        } else if k == 174 {
        } else if k == 175 {
        } else if k == 176 {
        } else if k == 177 {
        } else if k == 178 {
        } else if k == 179 {
        } else if k == 180 {
        } else if k == 181 {
        } else if k == 182 {
        } else if k == 183 {
        } else if k == 184 {
        } else if k == 185 {
        } else if k == 186 {
        } else if k == 187 {
        } else if k == 188 {
        } else if k == 189 {
        } else if k == 190 {
        } else {
        }
    }
}

proof fn lemma_diacritics_adjacent_192_255()
    ensures
        forall|k: int|
            192 <= k < 255 ==> (#[trigger] row_column_diacritics()[k] as u32) < (
            row_column_diacritics()[k + 1] as u32),
{
    let d = row_column_diacritics();
    assert((d[192] as u32) < (d[193] as u32));
    assert((d[193] as u32) < (d[194] as u32));
    assert((d[194] as u32) < (d[195] as u32));
    assert((d[195] as u32) < (d[196] as u32));
    assert((d[196] as u32) < (d[197] as u32));
    assert((d[197] as u32) < (d[198] as u32));
    assert((d[198] as u32) < (d[199] as u32));
    assert((d[199] as u32) < (d[200] as u32));
    assert((d[200] as u32) < (d[201] as u32));
    assert((d[201] as u32) < (d[202] as u32));
    assert((d[202] as u32) < (d[203] as u32));
    assert((d[203] as u32) < (d[204] as u32));
    assert((d[204] as u32) < (d[205] as u32));
    assert((d[205] as u32) < (d[206] as u32));
    assert((d[206] as u32) < (d[207] as u32));
    assert((d[207] as u32) < (d[208] as u32));
    assert((d[208] as u32) < (d[209] as u32));
    assert((d[209] as u32) < (d[210] as u32));
    assert((d[210] as u32) < (d[211] as u32));
    assert((d[211] as u32) < (d[212] as u32));
    assert((d[212] as u32) < (d[213] as u32));
    assert((d[213] as u32) < (d[214] as u32));
    assert((d[214] as u32) < (d[215] as u32));
    assert((d[215] as u32) < (d[216] as u32));
    assert((d[216] as u32) < (d[217] as u32));
    assert((d[217] as u32) < (d[218] as u32));
    assert((d[218] as u32) < (d[219] as u32));
    assert((d[219] as u32) < (d[220] as u32));
    assert((d[220] as u32) < (d[221] as u32));
    assert((d[221] as u32) < (d[222] as u32));
    assert((d[222] as u32) < (d[223] as u32));
    assert((d[223] as u32) < (d[224] as u32));
    assert((d[224] as u32) < (d[225] as u32));
    assert((d[225] as u32) < (d[226] as u32));
    assert((d[226] as u32) < (d[227] as u32));
    assert((d[227] as u32) < (d[228] as u32));
    assert((d[228] as u32) < (d[229] as u32));
    assert((d[229] as u32) < (d[230] as u32));
    assert((d[230] as u32) < (d[231] as u32));
    assert((d[231] as u32) < (d[232] as u32));
    assert((d[232] as u32) < (d[233] as u32));
    assert((d[233] as u32) < (d[234] as u32));
    assert((d[234] as u32) < (d[235] as u32));
    assert((d[235] as u32) < (d[236] as u32));
    assert((d[236] as u32) < (d[237] as u32));
    assert((d[237] as u32) < (d[238] as u32));
    assert((d[238] as u32) < (d[239] as u32));
    assert((d[239] as u32) < (d[240] as u32));
    assert((d[240] as u32) < (d[241] as u32));
    assert((d[241] as u32) < (d[242] as u32));
    assert((d[242] as u32) < (d[243] as u32));
    assert((d[243] as u32) < (d[244] as u32));
    assert((d[244] as u32) < (d[245] as u32));
    assert((d[245] as u32) < (d[246] as u32));
    assert((d[246] as u32) < (d[247] as u32));
    assert((d[247] as u32) < (d[248] as u32));
    assert((d[248] as u32) < (d[249] as u32));
    assert((d[249] as u32) < (d[250] as u32));
    assert((d[250] as u32) < (d[251] as u32));
    assert((d[251] as u32) < (d[252] as u32));
    assert((d[252] as u32) < (d[253] as u32));
    assert((d[253] as u32) < (d[254] as u32));
    assert((d[254] as u32) < (d[255] as u32));
    assert forall|k: int| 192 <= k < 255 implies (#[trigger] d[k] as u32) < (d[k + 1] as u32) by {
        if k == 192 {
        } else if k == 193 {
        } else if k == 194 {
        } else if k == 195 {
        } else if k == 196 {
        } else if k == 197 {
        } else if k == 198 {
        } else if k == 199 {
        } else if k == 200 {
        } else if k == 201 {
        } else if k == 202 {
        } else if k == 203 {
        } else if k == 204 {
        } else if k == 205 {
        } else if k == 206 {
        } else if k == 207 {
        } else if k == 208 {
        } else if k == 209 {
        } else if k == 210 {
        } else if k == 211 {
        } else if k == 212 {
        } else if k == 213 {
        } else if k == 214 {
        } else if k == 215 {
        } else if k == 216 {
        } else if k == 217 {
        } else if k == 218 {
        } else if k == 219 {
        } else if k == 220 {
        } else if k == 221 {
        } else if k == 222 {
        } else if k == 223 {
        } else if k == 224 {
        } else if k == 225 {
        } else if k == 226 {
        } else if k == 227 {
        } else if k == 228 {
        } else if k == 229 {
        } else if k == 230 {
        } else if k == 231 {
        } else if k == 232 {
        } else if k == 233 {
        } else if k == 234 {
        } else if k == 235 {
        } else if k == 236 {
        } else if k == 237 {
        } else if k == 238 {
        } else if k == 239 {
        } else if k == 240 {
        } else if k == 241 {
        } else if k == 242 {
        } else if k == 243 {
        } else if k == 244 {
        } else if k == 245 {
        } else if k == 246 {
        } else if k == 247 {
        } else if k == 248 {
        } else if k == 249 {
        } else if k == 250 {
        } else if k == 251 {
        } else if k == 252 {
        } else if k == 253 {
        } else {
        }
    }
}

proof fn lemma_diacritics_adjacent()
    ensures
        forall|k: int|
            0 <= k < 255 ==> (#[trigger] row_column_diacritics()[k] as u32) < (
            row_column_diacritics()[k + 1] as u32),
{
    lemma_diacritics_adjacent_0_64();
    lemma_diacritics_adjacent_64_128();
    lemma_diacritics_adjacent_128_192();
    lemma_diacritics_adjacent_192_255();
}

proof fn lemma_increasing_prefix(s: Seq<char>, n: int)
    requires
        0 <= n <= s.len(),
        forall|k: int| 0 <= k < s.len() - 1 ==> (#[trigger] s[k] as u32) < (s[k + 1] as u32),
    ensures
        forall|i: int, j: int| 0 <= i < j < n ==> (s[i] as u32) < (s[j] as u32),
    decreases n,
{
    if n > 0 {
        lemma_increasing_prefix(s, n - 1);
        assert forall|i: int, j: int| 0 <= i < j < n implies (s[i] as u32) < (s[j] as u32) by {
            if j < n - 1 {
            } else if i < j - 1 {
                assert((s[j - 1] as u32) < (s[j] as u32));
            } else {
                assert((s[i] as u32) < (s[i + 1] as u32));
            }
        }
    }
}

/// The row/column diacritics are kitty's list in its own order: 256 combining marks from
/// U+0305 to U+A8E5 with strictly increasing code points, so the mark of row or column `c`
/// is the `c`-th smallest of them.
#[verifier::rlimit(50)]
pub proof fn lemma_diacritics_in_kitty_order()
    ensures
        row_column_diacritics().len() == 256,
        row_column_diacritics()[0] == '\u{0305}',
        row_column_diacritics()[255] == '\u{A8E5}',
        strictly_increasing(row_column_diacritics()),
{
    let d = row_column_diacritics();
    assert(d.len() == 256);
    assert(d[0] == '\u{0305}');
    assert(d[255] == '\u{A8E5}');
    lemma_diacritics_adjacent();
    lemma_increasing_prefix(d, 256);
}

/// `ESC [ row ; col H`: moves the cursor to the 1-based cell (`row`, `col`).
pub open spec fn csi_move(row: nat, col: nat) -> Seq<char> {
    seq!['\x1b', '['] + crate::decimal::decimal(row) + seq![';'] + crate::decimal::decimal(col) + seq!['H']
}

/// `ESC [ 38 ; 2 ; r ; g ; b m`: sets the 24-bit foreground colour.
pub open spec fn fg_rgb(r: nat, g: nat, b: nat) -> Seq<char> {
    seq!['\x1b', '[', '3', '8', ';', '2', ';'] + crate::decimal::decimal(r) + seq![';'] + crate::decimal::decimal(g) + seq![';']
        + crate::decimal::decimal(b) + seq!['m']
}

/// `ESC [ 0 m`: resets all character attributes.
pub open spec fn sgr_reset() -> Seq<char> {
    seq!['\x1b', '[', '0', 'm']
}

/// Bits 16..24 of an image id: the red component of the colour that carries it.
pub open spec fn id_red(id: u32) -> nat {
    ((id as nat) / 0x10000) % 0x100
}

/// Bits 8..16 of an image id: the green component.
pub open spec fn id_green(id: u32) -> nat {
    ((id as nat) / 0x100) % 0x100
}

/// Bits 0..8 of an image id: the blue component.
pub open spec fn id_blue(id: u32) -> nat {
    (id as nat) % 0x100
}

/// The first `n` placeholder cells of a row: each is the placeholder character, the row's
/// diacritic and the diacritic of its column.
pub open spec fn placeholder_cells(row_diacritic: char, n: nat) -> Seq<char>
    decreases n,
{
    if n == 0 {
        seq![]
    } else {
        placeholder_cells(row_diacritic, (n - 1) as nat) + seq![
            placeholder_char(),
            row_diacritic,
            row_column_diacritics()[((n - 1) % 256) as int],
        ]
    }
}

/// Row `row` of the placeholders of image `id` at `pos`: cursor to the row's first cell, the
/// id as foreground colour, then `cell_w` cells.
pub open spec fn placeholder_row(id: u32, pos: Position, cell_w: u16, row: nat) -> Seq<char> {
    csi_move((pos.y + row + 1) as nat, (pos.x + 1) as nat) + fg_rgb(id_red(id), id_green(id), id_blue(id))
        + placeholder_cells(row_column_diacritics()[(row % 256) as int], cell_w as nat)
}

/// The first `n` rows of placeholders.
pub open spec fn placeholder_rows(id: u32, pos: Position, cell_w: u16, n: nat) -> Seq<char>
    decreases n,
{
    if n == 0 {
        seq![]
    } else {
        placeholder_rows(id, pos, cell_w, (n - 1) as nat) + placeholder_row(
            id,
            pos,
            cell_w,
            (n - 1) as nat,
        )
    }
}

/// All placeholder text of image `id` over `cell_w` x `cell_h` cells at `pos`, ending with an
/// attribute reset.
pub open spec fn placeholder_text(id: u32, pos: Position, cell_w: u16, cell_h: u16) -> Seq<char> {
    placeholder_rows(id, pos, cell_w, cell_h as nat) + sgr_reset()
}

fn push_csi_move(out: &mut Vec<char>, row: u32, col: u32)
    ensures
        final(out)@ == old(out)@ + csi_move(row as nat, col as nat),
{
    out.push('\x1b');
    out.push('[');
    push_decimal(out, row);
    out.push(';');
    push_decimal(out, col);
    out.push('H');
}

fn push_fg_rgb(out: &mut Vec<char>, r: u8, g: u8, b: u8)
    ensures
        final(out)@ == old(out)@ + fg_rgb(r as nat, g as nat, b as nat),
{
    out.push('\x1b');
    out.push('[');
    out.push('3');
    out.push('8');
    out.push(';');
    out.push('2');
    out.push(';');
    push_decimal(out, r as u32);
    out.push(';');
    push_decimal(out, g as u32);
    out.push(';');
    push_decimal(out, b as u32);
    out.push('m');
}

/// The text that draws image `image_id` as unicode placeholders over `cell_w` x `cell_h`
/// cells whose top-left cell is `pos`: per row, a cursor move to the row's first cell, the id
/// as 24-bit foreground colour, and one placeholder per cell carrying row and column
/// diacritics; then an attribute reset.
pub fn unicode_placeholders(image_id: u32, pos: Position, cell_w: u16, cell_h: u16) -> (text: Vec<
    char,
>)
    ensures
        text@ == placeholder_text(image_id, pos, cell_w, cell_h),
{
    let r: u8 = ((image_id >> 16u32) & 0xFFu32) as u8;
    let g: u8 = ((image_id >> 8u32) & 0xFFu32) as u8;
    let b: u8 = (image_id & 0xFFu32) as u8;
    proof {
        assert((image_id >> 16u32) & 0xFFu32 == (image_id / 0x10000u32) % 0x100u32) by (bit_vector);
        assert((image_id >> 8u32) & 0xFFu32 == (image_id / 0x100u32) % 0x100u32) by (bit_vector);
        assert(image_id & 0xFFu32 == image_id % 0x100u32) by (bit_vector);
    }
    let table = diacritics_table();
    let mut out: Vec<char> = Vec::new();
    let mut row: u16 = 0;
    while row < cell_h
        invariant
            row <= cell_h,
            table@ == row_column_diacritics(),
            r as nat == id_red(image_id),
            g as nat == id_green(image_id),
            b as nat == id_blue(image_id),
            out@ == placeholder_rows(image_id, pos, cell_w, row as nat),
        decreases cell_h - row,
    {
        let ghost row_start = out@;
        push_csi_move(&mut out, pos.y as u32 + row as u32 + 1, pos.x as u32 + 1);
        push_fg_rgb(&mut out, r, g, b);
        let row_diacritic = table[(row as usize) % 256];
        let ghost cells_start = out@;
        let mut col: u16 = 0;
        while col < cell_w
            invariant
                col <= cell_w,
                table@ == row_column_diacritics(),
                out@ == cells_start + placeholder_cells(row_diacritic, col as nat),
            decreases cell_w - col,
        {
            out.push('\u{10EEEE}');
            out.push(row_diacritic);
            out.push(table[(col as usize) % 256]);
            col = col + 1;
        }
        proof {
            assert(out@ =~= row_start + placeholder_row(image_id, pos, cell_w, row as nat));
        }
        row = row + 1;
    }
    out.push('\x1b');
    out.push('[');
    out.push('0');
    out.push('m');
    proof {
        assert(out@ =~= placeholder_text(image_id, pos, cell_w, cell_h));
    }
    out
}

/// Cursor move written before a command when the terminal is reached through tmux: the
/// 0-based cell `pos` of the pane, shifted by the pane's offset within the outer terminal, in
/// 1-based coordinates.
pub fn cursor_position_sequence(pos: Position, col_off: u16, row_off: u16) -> (text: Vec<char>)
    ensures
        text@ == csi_move((pos.y + row_off + 1) as nat, (pos.x + col_off + 1) as nat),
{
    let mut out: Vec<char> = Vec::new();
    push_csi_move(
        &mut out,
        pos.y as u32 + row_off as u32 + 1,
        pos.x as u32 + col_off as u32 + 1,
    );
    proof {
        assert(out@ =~= csi_move((pos.y + row_off + 1) as nat, (pos.x + col_off + 1) as nat));
    }
    out
}

/// Prefix of the name of the shared-memory object used to probe for shared-memory support.
pub open spec fn shm_probe_prefix() -> Seq<char> {
    seq!['t', 'd', 'f', '_', 't', 'e', 's', 't', '_']
}

/// Name of the shared-memory object with which process `pid` probes whether the terminal reads
/// images from shared memory: `tdf_test_<pid>`.
pub fn shm_probe_name(pid: u32) -> (name: Vec<char>)
    ensures
        name@ == shm_probe_prefix() + crate::decimal::decimal(pid as nat),
{
    let mut out: Vec<char> = Vec::new();
    out.push('t');
    out.push('d');
    out.push('f');
    out.push('_');
    out.push('t');
    out.push('e');
    out.push('s');
    out.push('t');
    out.push('_');
    push_decimal(&mut out, pid);
    proof {
        assert(out@ =~= shm_probe_prefix() + crate::decimal::decimal(pid as nat));
    }
    out
}

/// Row `n` of the placeholders is drawn on its own line below the image's top: the text of
/// `n + 1` rows is that of `n` rows followed by a cursor move to the 1-based line
/// `pos.y + n + 1` and column `pos.x + 1`, the id as foreground colour, and the row's cells.
pub proof fn lemma_placeholder_rows_step(id: u32, pos: Position, cell_w: u16, n: nat)
    ensures
        placeholder_rows(id, pos, cell_w, 0) == Seq::<char>::empty(),
        placeholder_rows(id, pos, cell_w, n + 1) == placeholder_rows(id, pos, cell_w, n)
            + csi_move((pos.y + n + 1) as nat, (pos.x + 1) as nat) + fg_rgb(
            id_red(id),
            id_green(id),
            id_blue(id),
        ) + placeholder_cells(row_column_diacritics()[(n % 256) as int], cell_w as nat),
        placeholder_text(id, pos, cell_w, 0) == sgr_reset(),
{
    assert(placeholder_rows(id, pos, cell_w, n + 1) =~= placeholder_rows(id, pos, cell_w, n)
        + csi_move((pos.y + n + 1) as nat, (pos.x + 1) as nat) + fg_rgb(
        id_red(id),
        id_green(id),
        id_blue(id),
    ) + placeholder_cells(row_column_diacritics()[(n % 256) as int], cell_w as nat));
    assert(placeholder_text(id, pos, cell_w, 0) =~= sgr_reset());
}

/// A cursor move reads back as the cell it names: `ESC [`, the decimal line, `;`, the decimal
/// column, `H`, where the digits denote exactly `row` and `col`.
pub proof fn lemma_csi_move_reads_back(row: nat, col: nat)
    ensures
        ({
            let t = csi_move(row, col);
            let r = crate::decimal::decimal(row);
            let c = crate::decimal::decimal(col);
            &&& t.len() == r.len() + c.len() + 4
            &&& t[0] == '\x1b'
            &&& t[1] == '['
            &&& t.subrange(2, 2 + r.len() as int) == r
            &&& crate::decimal::decimal_value(t.subrange(2, 2 + r.len() as int)) == row
            &&& t[2 + r.len() as int] == ';'
            &&& t.subrange(3 + r.len() as int, 3 + r.len() + c.len() as int) == c
            &&& crate::decimal::decimal_value(
                t.subrange(3 + r.len() as int, 3 + r.len() + c.len() as int),
            ) == col
            &&& t.last() == 'H'
        }),
{
    crate::decimal::lemma_decimal_roundtrip(row);
    crate::decimal::lemma_decimal_roundtrip(col);
    let t = csi_move(row, col);
    let r = crate::decimal::decimal(row);
    let c = crate::decimal::decimal(col);
    assert(t.subrange(2, 2 + r.len() as int) =~= r);
    assert(t.subrange(3 + r.len() as int, 3 + r.len() + c.len() as int) =~= c);
}

/// The foreground colour of the placeholders carries the image id: its components put
/// together give the id's lower 24 bits.
pub proof fn lemma_placeholder_colour_carries_id(id: u32)
    ensures
        id_red(id) * 0x10000 + id_green(id) * 0x100 + id_blue(id) == (id as nat) % 0x100_0000,
        id < 0x100_0000 ==> id_red(id) * 0x10000 + id_green(id) * 0x100 + id_blue(id) == id,
{
    let n = id as nat;
    assert(((n / 0x10000) % 0x100) * 0x10000 + ((n / 0x100) % 0x100) * 0x100 + n % 0x100 == n
        % 0x100_0000) by (nonlinear_arith);
}

/// Placeholder cells are one-to-one with display cells: cell `c` of a row is the placeholder
/// character followed by the row's diacritic and the diacritic of column `c`.
pub proof fn lemma_placeholder_cells(row_diacritic: char, n: nat)
    ensures
        placeholder_cells(row_diacritic, n).len() == 3 * n,
        forall|c: int|
            0 <= c < n ==> {
                &&& #[trigger] placeholder_cells(row_diacritic, n)[3 * c] == placeholder_char()
                &&& placeholder_cells(row_diacritic, n)[3 * c + 1] == row_diacritic
                &&& placeholder_cells(row_diacritic, n)[3 * c + 2] == row_column_diacritics()[c
                    % 256]
            },
    decreases n,
{
    if n > 0 {
        lemma_placeholder_cells(row_diacritic, (n - 1) as nat);
        let prev = placeholder_cells(row_diacritic, (n - 1) as nat);
        let cur = placeholder_cells(row_diacritic, n);
        assert forall|c: int| 0 <= c < n implies {
            &&& #[trigger] cur[3 * c] == placeholder_char()
            &&& cur[3 * c + 1] == row_diacritic
            &&& cur[3 * c + 2] == row_column_diacritics()[c % 256]
        } by {
            if c < n - 1 {
                assert(cur[3 * c] == prev[3 * c]);
                assert(cur[3 * c + 1] == prev[3 * c + 1]);
                assert(cur[3 * c + 2] == prev[3 * c + 2]);
            }
        }
    }
}

} // verus!
