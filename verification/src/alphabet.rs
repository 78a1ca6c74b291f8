//! The fixed symbol alphabet: 86 printable characters, consumed strictly in
//! order as palette entries are first encountered during the grid walk.

use vstd::prelude::*;

verus! {

/// The number of characters in the symbol alphabet.
pub const ALPHABET_LEN: usize = 86;

/// The fixed ordered symbol alphabet: 26 upper-case letters, 26 lower-case
/// letters, 10 digits, and 24 punctuation symbols.
pub open spec fn alphabet() -> Seq<char> {
    seq!['A', 'B', 'C', 'D', 'E', 'F', 'G', 'H', 'I', 'J', 'K', 'L', 'M', 'N', 'O', 'P', 'Q', 'R', 'S', 'T', 'U', 'V', 'W', 'X', 'Y', 'Z', 'a', 'b', 'c', 'd', 'e', 'f', 'g', 'h', 'i', 'j', 'k', 'l', 'm', 'n', 'o', 'p', 'q', 'r', 's', 't', 'u', 'v', 'w', 'x', 'y', 'z', '0', '1', '2', '3', '4', '5', '6', '7', '8', '9', '!', '@', '#', '$', '%', '^', '&', '*', '(', ')', '_', '+', '=', '[', ']', '{', '}', '|', ';', '\'', ':', ',', '/', '<']
}

/// The alphabet character at rank `i`.
pub fn alphabet_char(i: usize) -> (c: char)
    requires
        i < ALPHABET_LEN,
    ensures
        c == alphabet()[i as int],
{
    match i {
        0 => 'A',
        1 => 'B',
        2 => 'C',
        3 => 'D',
        4 => 'E',
        5 => 'F',
        6 => 'G',
        7 => 'H',
        8 => 'I',
        9 => 'J',
        10 => 'K',
        11 => 'L',
        12 => 'M',
        13 => 'N',
        14 => 'O',
        15 => 'P',
        16 => 'Q',
        17 => 'R',
        18 => 'S',
        19 => 'T',
        20 => 'U',
        21 => 'V',
        22 => 'W',
        23 => 'X',
        24 => 'Y',
        25 => 'Z',
        26 => 'a',
        27 => 'b',
        28 => 'c',
        29 => 'd',
        30 => 'e',
        31 => 'f',
        32 => 'g',
        33 => 'h',
        34 => 'i',
        35 => 'j',
        36 => 'k',
        37 => 'l',
        38 => 'm',
        39 => 'n',
        40 => 'o',
        41 => 'p',
        42 => 'q',
        43 => 'r',
        44 => 's',
        45 => 't',
        46 => 'u',
        47 => 'v',
        48 => 'w',
        49 => 'x',
        50 => 'y',
        51 => 'z',
        52 => '0',
        53 => '1',
        54 => '2',
        55 => '3',
        56 => '4',
        57 => '5',
        58 => '6',
        59 => '7',
        60 => '8',
        61 => '9',
        62 => '!',
        63 => '@',
        64 => '#',
        65 => '$',
        66 => '%',
        67 => '^',
        68 => '&',
        69 => '*',
        70 => '(',
        71 => ')',
        72 => '_',
        73 => '+',
        74 => '=',
        75 => '[',
        76 => ']',
        77 => '{',
        78 => '}',
        79 => '|',
        80 => ';',
        81 => '\'',
        82 => ':',
        83 => ',',
        84 => '/',
        85 => '<',
        _ => '.',
    }
}

/// The reserved characters never drawn from the alphabet: `'.'` marks a
/// transparent pixel and `'?'` marks palette overflow.
pub proof fn lemma_alphabet_reserved()
    ensures
        alphabet().len() == 86,
        forall|p: int| 0 <= p < 86 ==> #[trigger] alphabet()[p] != '.',
        forall|p: int| 0 <= p < 86 ==> #[trigger] alphabet()[p] != '?',
        forall|p: int| 0 <= p < 86 ==> #[trigger] alphabet()[p] != '\n',
{
    assert(alphabet()[0] != '.' && alphabet()[0] != '?' && alphabet()[0] != '\n');
    assert(alphabet()[1] != '.' && alphabet()[1] != '?' && alphabet()[1] != '\n');
    assert(alphabet()[2] != '.' && alphabet()[2] != '?' && alphabet()[2] != '\n');
    assert(alphabet()[3] != '.' && alphabet()[3] != '?' && alphabet()[3] != '\n');
    assert(alphabet()[4] != '.' && alphabet()[4] != '?' && alphabet()[4] != '\n');
    assert(alphabet()[5] != '.' && alphabet()[5] != '?' && alphabet()[5] != '\n');
    assert(alphabet()[6] != '.' && alphabet()[6] != '?' && alphabet()[6] != '\n');
    assert(alphabet()[7] != '.' && alphabet()[7] != '?' && alphabet()[7] != '\n');
    assert(alphabet()[8] != '.' && alphabet()[8] != '?' && alphabet()[8] != '\n');
    assert(alphabet()[9] != '.' && alphabet()[9] != '?' && alphabet()[9] != '\n');
    assert(alphabet()[10] != '.' && alphabet()[10] != '?' && alphabet()[10] != '\n');
    assert(alphabet()[11] != '.' && alphabet()[11] != '?' && alphabet()[11] != '\n');
    assert(alphabet()[12] != '.' && alphabet()[12] != '?' && alphabet()[12] != '\n');
    assert(alphabet()[13] != '.' && alphabet()[13] != '?' && alphabet()[13] != '\n');
    assert(alphabet()[14] != '.' && alphabet()[14] != '?' && alphabet()[14] != '\n');
    assert(alphabet()[15] != '.' && alphabet()[15] != '?' && alphabet()[15] != '\n');
    assert(alphabet()[16] != '.' && alphabet()[16] != '?' && alphabet()[16] != '\n');
    assert(alphabet()[17] != '.' && alphabet()[17] != '?' && alphabet()[17] != '\n');
    assert(alphabet()[18] != '.' && alphabet()[18] != '?' && alphabet()[18] != '\n');
    assert(alphabet()[19] != '.' && alphabet()[19] != '?' && alphabet()[19] != '\n');
    assert(alphabet()[20] != '.' && alphabet()[20] != '?' && alphabet()[20] != '\n');
    assert(alphabet()[21] != '.' && alphabet()[21] != '?' && alphabet()[21] != '\n');
    assert(alphabet()[22] != '.' && alphabet()[22] != '?' && alphabet()[22] != '\n');
    assert(alphabet()[23] != '.' && alphabet()[23] != '?' && alphabet()[23] != '\n');
    assert(alphabet()[24] != '.' && alphabet()[24] != '?' && alphabet()[24] != '\n');
    assert(alphabet()[25] != '.' && alphabet()[25] != '?' && alphabet()[25] != '\n');
    assert(alphabet()[26] != '.' && alphabet()[26] != '?' && alphabet()[26] != '\n');
    assert(alphabet()[27] != '.' && alphabet()[27] != '?' && alphabet()[27] != '\n');
    assert(alphabet()[28] != '.' && alphabet()[28] != '?' && alphabet()[28] != '\n');
    assert(alphabet()[29] != '.' && alphabet()[29] != '?' && alphabet()[29] != '\n');
    assert(alphabet()[30] != '.' && alphabet()[30] != '?' && alphabet()[30] != '\n');
    assert(alphabet()[31] != '.' && alphabet()[31] != '?' && alphabet()[31] != '\n');
    assert(alphabet()[32] != '.' && alphabet()[32] != '?' && alphabet()[32] != '\n');
    assert(alphabet()[33] != '.' && alphabet()[33] != '?' && alphabet()[33] != '\n');
    assert(alphabet()[34] != '.' && alphabet()[34] != '?' && alphabet()[34] != '\n');
    assert(alphabet()[35] != '.' && alphabet()[35] != '?' && alphabet()[35] != '\n');
    assert(alphabet()[36] != '.' && alphabet()[36] != '?' && alphabet()[36] != '\n');
    assert(alphabet()[37] != '.' && alphabet()[37] != '?' && alphabet()[37] != '\n');
    assert(alphabet()[38] != '.' && alphabet()[38] != '?' && alphabet()[38] != '\n');
    assert(alphabet()[39] != '.' && alphabet()[39] != '?' && alphabet()[39] != '\n');
    assert(alphabet()[40] != '.' && alphabet()[40] != '?' && alphabet()[40] != '\n');
    assert(alphabet()[41] != '.' && alphabet()[41] != '?' && alphabet()[41] != '\n');
    assert(alphabet()[42] != '.' && alphabet()[42] != '?' && alphabet()[42] != '\n');
    assert(alphabet()[43] != '.' && alphabet()[43] != '?' && alphabet()[43] != '\n');
    assert(alphabet()[44] != '.' && alphabet()[44] != '?' && alphabet()[44] != '\n');
    assert(alphabet()[45] != '.' && alphabet()[45] != '?' && alphabet()[45] != '\n');
    assert(alphabet()[46] != '.' && alphabet()[46] != '?' && alphabet()[46] != '\n');
    assert(alphabet()[47] != '.' && alphabet()[47] != '?' && alphabet()[47] != '\n');
    assert(alphabet()[48] != '.' && alphabet()[48] != '?' && alphabet()[48] != '\n');
    assert(alphabet()[49] != '.' && alphabet()[49] != '?' && alphabet()[49] != '\n');
    assert(alphabet()[50] != '.' && alphabet()[50] != '?' && alphabet()[50] != '\n');
    assert(alphabet()[51] != '.' && alphabet()[51] != '?' && alphabet()[51] != '\n');
    assert(alphabet()[52] != '.' && alphabet()[52] != '?' && alphabet()[52] != '\n');
    assert(alphabet()[53] != '.' && alphabet()[53] != '?' && alphabet()[53] != '\n');
    assert(alphabet()[54] != '.' && alphabet()[54] != '?' && alphabet()[54] != '\n');
    assert(alphabet()[55] != '.' && alphabet()[55] != '?' && alphabet()[55] != '\n');
    assert(alphabet()[56] != '.' && alphabet()[56] != '?' && alphabet()[56] != '\n');
    assert(alphabet()[57] != '.' && alphabet()[57] != '?' && alphabet()[57] != '\n');
    assert(alphabet()[58] != '.' && alphabet()[58] != '?' && alphabet()[58] != '\n');
    assert(alphabet()[59] != '.' && alphabet()[59] != '?' && alphabet()[59] != '\n');
    assert(alphabet()[60] != '.' && alphabet()[60] != '?' && alphabet()[60] != '\n');
    assert(alphabet()[61] != '.' && alphabet()[61] != '?' && alphabet()[61] != '\n');
    assert(alphabet()[62] != '.' && alphabet()[62] != '?' && alphabet()[62] != '\n');
    assert(alphabet()[63] != '.' && alphabet()[63] != '?' && alphabet()[63] != '\n');
    assert(alphabet()[64] != '.' && alphabet()[64] != '?' && alphabet()[64] != '\n');
    assert(alphabet()[65] != '.' && alphabet()[65] != '?' && alphabet()[65] != '\n');
    assert(alphabet()[66] != '.' && alphabet()[66] != '?' && alphabet()[66] != '\n');
    assert(alphabet()[67] != '.' && alphabet()[67] != '?' && alphabet()[67] != '\n');
    assert(alphabet()[68] != '.' && alphabet()[68] != '?' && alphabet()[68] != '\n');
    assert(alphabet()[69] != '.' && alphabet()[69] != '?' && alphabet()[69] != '\n');
    assert(alphabet()[70] != '.' && alphabet()[70] != '?' && alphabet()[70] != '\n');
    assert(alphabet()[71] != '.' && alphabet()[71] != '?' && alphabet()[71] != '\n');
    assert(alphabet()[72] != '.' && alphabet()[72] != '?' && alphabet()[72] != '\n');
    assert(alphabet()[73] != '.' && alphabet()[73] != '?' && alphabet()[73] != '\n');
    assert(alphabet()[74] != '.' && alphabet()[74] != '?' && alphabet()[74] != '\n');
    assert(alphabet()[75] != '.' && alphabet()[75] != '?' && alphabet()[75] != '\n');
    assert(alphabet()[76] != '.' && alphabet()[76] != '?' && alphabet()[76] != '\n');
    assert(alphabet()[77] != '.' && alphabet()[77] != '?' && alphabet()[77] != '\n');
    assert(alphabet()[78] != '.' && alphabet()[78] != '?' && alphabet()[78] != '\n');
    assert(alphabet()[79] != '.' && alphabet()[79] != '?' && alphabet()[79] != '\n');
    assert(alphabet()[80] != '.' && alphabet()[80] != '?' && alphabet()[80] != '\n');
    assert(alphabet()[81] != '.' && alphabet()[81] != '?' && alphabet()[81] != '\n');
    assert(alphabet()[82] != '.' && alphabet()[82] != '?' && alphabet()[82] != '\n');
    assert(alphabet()[83] != '.' && alphabet()[83] != '?' && alphabet()[83] != '\n');
    assert(alphabet()[84] != '.' && alphabet()[84] != '?' && alphabet()[84] != '\n');
    assert(alphabet()[85] != '.' && alphabet()[85] != '?' && alphabet()[85] != '\n');
}

} // verus!
