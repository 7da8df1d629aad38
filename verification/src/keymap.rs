//! The key symbol table: a fixed mapping from raw key codes to lowercase
//! symbol names.

use vstd::prelude::*;

use crate::sequence::KeyStrokeRecorder;

verus! {

/// The symbol of the key with code `code`. A code outside the table has the
/// symbol `"unknown"`.
pub open spec fn symbol_of(code: int) -> Seq<char> {
    if code == 0 {
        "a"@
    } else if code == 1 {
        "s"@
    } else if code == 2 {
        "d"@
    } else if code == 3 {
        "f"@
    } else if code == 4 {
        "h"@
    } else if code == 5 {
        "g"@
    } else if code == 6 {
        "z"@
    } else if code == 7 {
        "x"@
    } else if code == 8 {
        "c"@
    } else if code == 9 {
        "v"@
    } else if code == 11 {
        "b"@
    } else if code == 12 {
        "q"@
    } else if code == 13 {
        "w"@
    } else if code == 14 {
        "e"@
    } else if code == 15 {
        "r"@
    } else if code == 16 {
        "y"@
    } else if code == 17 {
        "t"@
    } else if code == 18 {
        "1"@
    } else if code == 19 {
        "2"@
    } else if code == 20 {
        "3"@
    } else if code == 21 {
        "4"@
    } else if code == 22 {
        "6"@
    } else if code == 23 {
        "5"@
    } else if code == 24 {
        "="@
    } else if code == 25 {
        "9"@
    } else if code == 26 {
        "7"@
    } else if code == 27 {
        "-"@
    } else if code == 28 {
        "8"@
    } else if code == 29 {
        "0"@
    } else if code == 30 {
        "]"@
    } else if code == 31 {
        "o"@
    } else if code == 32 {
        "u"@
    } else if code == 33 {
        "["@
    } else if code == 34 {
        "i"@
    } else if code == 35 {
        "p"@
    } else if code == 36 {
        "return"@
    } else if code == 37 {
        "l"@
    } else if code == 38 {
        "j"@
    } else if code == 39 {
        "'"@
    } else if code == 40 {
        "k"@
    } else if code == 41 {
        ";"@
    } else if code == 42 {
        "\\"@
    } else if code == 43 {
        ","@
    } else if code == 44 {
        "/"@
    } else if code == 45 {
        "n"@
    } else if code == 46 {
        "m"@
    } else if code == 47 {
        "."@
    } else if code == 48 {
        "tab"@
    } else if code == 49 {
        "space"@
    } else if code == 50 {
        "`"@
    } else if code == 51 {
        "delete"@
    } else if code == 53 {
        "escape"@
    } else if code == 55 {
        "command"@
    } else if code == 56 {
        "shift"@
    } else if code == 57 {
        "capslock"@
    } else if code == 58 {
        "option"@
    } else if code == 59 {
        "control"@
    } else if code == 60 {
        "rightshift"@
    } else if code == 61 {
        "rightoption"@
    } else if code == 62 {
        "rightcontrol"@
    } else if code == 63 {
        "fn"@
    } else if code == 64 {
        "f17"@
    } else if code == 65 {
        "keypad."@
    } else if code == 67 {
        "keypad*"@
    } else if code == 69 {
        "keypad+"@
    } else if code == 71 {
        "keypadclear"@
    } else if code == 75 {
        "keypad/"@
    } else if code == 76 {
        "keypadenter"@
    } else if code == 78 {
        "keypad-"@
    } else if code == 79 {
        "f18"@
    } else if code == 80 {
        "f19"@
    } else if code == 81 {
        "keypad="@
    } else if code == 82 {
        "keypad0"@
    } else if code == 83 {
        "keypad1"@
    } else if code == 84 {
        "keypad2"@
    } else if code == 85 {
        "keypad3"@
    } else if code == 86 {
        "keypad4"@
    } else if code == 87 {
        "keypad5"@
    } else if code == 88 {
        "keypad6"@
    } else if code == 89 {
        "keypad7"@
    } else if code == 90 {
        "f20"@
    } else if code == 91 {
        "keypad8"@
    } else if code == 92 {
        "keypad9"@
    } else if code == 96 {
        "f5"@
    } else if code == 97 {
        "f6"@
    } else if code == 98 {
        "f7"@
    } else if code == 99 {
        "f3"@
    } else if code == 100 {
        "f8"@
    } else if code == 101 {
        "f9"@
    } else if code == 103 {
        "f11"@
    } else if code == 105 {
        "f13"@
    } else if code == 106 {
        "f16"@
    } else if code == 107 {
        "f14"@
    } else if code == 109 {
        "f10"@
    } else if code == 111 {
        "f12"@
    } else if code == 113 {
        "f15"@
    } else if code == 114 {
        "help"@
    } else if code == 115 {
        "home"@
    } else if code == 116 {
        "pageup"@
    } else if code == 117 {
        "forwarddelete"@
    } else if code == 118 {
        "f4"@
    } else if code == 119 {
        "end"@
    } else if code == 120 {
        "f2"@
    } else if code == 121 {
        "pagedown"@
    } else if code == 122 {
        "f1"@
    } else if code == 123 {
        "left"@
    } else if code == 124 {
        "right"@
    } else if code == 125 {
        "down"@
    } else if code == 126 {
        "up"@
    } else {
        "unknown"@
    }
}

/// Whether the table has an entry for `code`.
pub open spec fn is_known_code(code: int) -> bool {
    ||| 0 <= code <= 9
    ||| 11 <= code <= 51
    ||| code == 53
    ||| 55 <= code <= 65
    ||| code == 67
    ||| code == 69
    ||| code == 71
    ||| 75 <= code <= 76
    ||| 78 <= code <= 92
    ||| 96 <= code <= 101
    ||| code == 103
    ||| 105 <= code <= 107
    ||| code == 109
    ||| code == 111
    ||| 113 <= code <= 126
}

/// The symbol for a code outside the table.
pub open spec fn unknown_symbol() -> Seq<char> {
    "unknown"@
}

/// The characters of every symbol of the table, and of the sentinel.
pub proof fn lemma_symbol_literals()
    ensures
        "'"@ =~= seq!['\''],
        ","@ =~= seq![','],
        "-"@ =~= seq!['-'],
        "."@ =~= seq!['.'],
        "/"@ =~= seq!['/'],
        "0"@ =~= seq!['0'],
        "1"@ =~= seq!['1'],
        "2"@ =~= seq!['2'],
        "3"@ =~= seq!['3'],
        "4"@ =~= seq!['4'],
        "5"@ =~= seq!['5'],
        "6"@ =~= seq!['6'],
        "7"@ =~= seq!['7'],
        "8"@ =~= seq!['8'],
        "9"@ =~= seq!['9'],
        ";"@ =~= seq![';'],
        "="@ =~= seq!['='],
        "["@ =~= seq!['['],
        "\\"@ =~= seq!['\\'],
        "]"@ =~= seq![']'],
        "`"@ =~= seq!['`'],
        "a"@ =~= seq!['a'],
        "b"@ =~= seq!['b'],
        "c"@ =~= seq!['c'],
        "capslock"@ =~= seq!['c', 'a', 'p', 's', 'l', 'o', 'c', 'k'],
        "command"@ =~= seq!['c', 'o', 'm', 'm', 'a', 'n', 'd'],
        "control"@ =~= seq!['c', 'o', 'n', 't', 'r', 'o', 'l'],
        "d"@ =~= seq!['d'],
        "delete"@ =~= seq!['d', 'e', 'l', 'e', 't', 'e'],
        "down"@ =~= seq!['d', 'o', 'w', 'n'],
        "e"@ =~= seq!['e'],
        "end"@ =~= seq!['e', 'n', 'd'],
        "escape"@ =~= seq!['e', 's', 'c', 'a', 'p', 'e'],
        "f"@ =~= seq!['f'],
        "f1"@ =~= seq!['f', '1'],
        "f10"@ =~= seq!['f', '1', '0'],
        "f11"@ =~= seq!['f', '1', '1'],
        "f12"@ =~= seq!['f', '1', '2'],
        "f13"@ =~= seq!['f', '1', '3'],
        "f14"@ =~= seq!['f', '1', '4'],
        "f15"@ =~= seq!['f', '1', '5'],
        "f16"@ =~= seq!['f', '1', '6'],
        "f17"@ =~= seq!['f', '1', '7'],
        "f18"@ =~= seq!['f', '1', '8'],
        "f19"@ =~= seq!['f', '1', '9'],
        "f2"@ =~= seq!['f', '2'],
        "f20"@ =~= seq!['f', '2', '0'],
        "f3"@ =~= seq!['f', '3'],
        "f4"@ =~= seq!['f', '4'],
        "f5"@ =~= seq!['f', '5'],
        "f6"@ =~= seq!['f', '6'],
        "f7"@ =~= seq!['f', '7'],
        "f8"@ =~= seq!['f', '8'],
        "f9"@ =~= seq!['f', '9'],
        "fn"@ =~= seq!['f', 'n'],
        "forwarddelete"@ =~= seq!['f', 'o', 'r', 'w', 'a', 'r', 'd', 'd', 'e', 'l', 'e', 't', 'e'],
        "g"@ =~= seq!['g'],
        "h"@ =~= seq!['h'],
        "help"@ =~= seq!['h', 'e', 'l', 'p'],
        "home"@ =~= seq!['h', 'o', 'm', 'e'],
        "i"@ =~= seq!['i'],
        "j"@ =~= seq!['j'],
        "k"@ =~= seq!['k'],
        "keypad*"@ =~= seq!['k', 'e', 'y', 'p', 'a', 'd', '*'],
        "keypad+"@ =~= seq!['k', 'e', 'y', 'p', 'a', 'd', '+'],
        "keypad-"@ =~= seq!['k', 'e', 'y', 'p', 'a', 'd', '-'],
        "keypad."@ =~= seq!['k', 'e', 'y', 'p', 'a', 'd', '.'],
        "keypad/"@ =~= seq!['k', 'e', 'y', 'p', 'a', 'd', '/'],
        "keypad0"@ =~= seq!['k', 'e', 'y', 'p', 'a', 'd', '0'],
        "keypad1"@ =~= seq!['k', 'e', 'y', 'p', 'a', 'd', '1'],
        "keypad2"@ =~= seq!['k', 'e', 'y', 'p', 'a', 'd', '2'],
        "keypad3"@ =~= seq!['k', 'e', 'y', 'p', 'a', 'd', '3'],
        "keypad4"@ =~= seq!['k', 'e', 'y', 'p', 'a', 'd', '4'],
        "keypad5"@ =~= seq!['k', 'e', 'y', 'p', 'a', 'd', '5'],
        "keypad6"@ =~= seq!['k', 'e', 'y', 'p', 'a', 'd', '6'],
        "keypad7"@ =~= seq!['k', 'e', 'y', 'p', 'a', 'd', '7'],
        "keypad8"@ =~= seq!['k', 'e', 'y', 'p', 'a', 'd', '8'],
        "keypad9"@ =~= seq!['k', 'e', 'y', 'p', 'a', 'd', '9'],
        "keypad="@ =~= seq!['k', 'e', 'y', 'p', 'a', 'd', '='],
        "keypadclear"@ =~= seq!['k', 'e', 'y', 'p', 'a', 'd', 'c', 'l', 'e', 'a', 'r'],
        "keypadenter"@ =~= seq!['k', 'e', 'y', 'p', 'a', 'd', 'e', 'n', 't', 'e', 'r'],
        "l"@ =~= seq!['l'],
        "left"@ =~= seq!['l', 'e', 'f', 't'],
        "m"@ =~= seq!['m'],
        "n"@ =~= seq!['n'],
        "o"@ =~= seq!['o'],
        "option"@ =~= seq!['o', 'p', 't', 'i', 'o', 'n'],
        "p"@ =~= seq!['p'],
        "pagedown"@ =~= seq!['p', 'a', 'g', 'e', 'd', 'o', 'w', 'n'],
        "pageup"@ =~= seq!['p', 'a', 'g', 'e', 'u', 'p'],
        "q"@ =~= seq!['q'],
        "r"@ =~= seq!['r'],
        "return"@ =~= seq!['r', 'e', 't', 'u', 'r', 'n'],
        "right"@ =~= seq!['r', 'i', 'g', 'h', 't'],
        "rightcontrol"@ =~= seq!['r', 'i', 'g', 'h', 't', 'c', 'o', 'n', 't', 'r', 'o', 'l'],
        "rightoption"@ =~= seq!['r', 'i', 'g', 'h', 't', 'o', 'p', 't', 'i', 'o', 'n'],
        "rightshift"@ =~= seq!['r', 'i', 'g', 'h', 't', 's', 'h', 'i', 'f', 't'],
        "s"@ =~= seq!['s'],
        "shift"@ =~= seq!['s', 'h', 'i', 'f', 't'],
        "space"@ =~= seq!['s', 'p', 'a', 'c', 'e'],
        "t"@ =~= seq!['t'],
        "tab"@ =~= seq!['t', 'a', 'b'],
        "u"@ =~= seq!['u'],
        "up"@ =~= seq!['u', 'p'],
        "v"@ =~= seq!['v'],
        "w"@ =~= seq!['w'],
        "x"@ =~= seq!['x'],
        "y"@ =~= seq!['y'],
        "z"@ =~= seq!['z'],
        "unknown"@ =~= seq!['u', 'n', 'k', 'n', 'o', 'w', 'n'],
{
    reveal_strlit("'");
    reveal_strlit(",");
    reveal_strlit("-");
    reveal_strlit(".");
    reveal_strlit("/");
    reveal_strlit("0");
    reveal_strlit("1");
    reveal_strlit("2");
    reveal_strlit("3");
    reveal_strlit("4");
    reveal_strlit("5");
    reveal_strlit("6");
    reveal_strlit("7");
    reveal_strlit("8");
    reveal_strlit("9");
    reveal_strlit(";");
    reveal_strlit("=");
    reveal_strlit("[");
    reveal_strlit("\\");
    reveal_strlit("]");
    reveal_strlit("`");
    reveal_strlit("a");
    reveal_strlit("b");
    reveal_strlit("c");
    reveal_strlit("capslock");
    reveal_strlit("command");
    reveal_strlit("control");
    reveal_strlit("d");
    reveal_strlit("delete");
    reveal_strlit("down");
    reveal_strlit("e");
    reveal_strlit("end");
    reveal_strlit("escape");
    reveal_strlit("f");
    reveal_strlit("f1");
    reveal_strlit("f10");
    reveal_strlit("f11");
    reveal_strlit("f12");
    reveal_strlit("f13");
    reveal_strlit("f14");
    reveal_strlit("f15");
    reveal_strlit("f16");
    reveal_strlit("f17");
    reveal_strlit("f18");
    reveal_strlit("f19");
    reveal_strlit("f2");
    reveal_strlit("f20");
    reveal_strlit("f3");
    reveal_strlit("f4");
    reveal_strlit("f5");
    reveal_strlit("f6");
    reveal_strlit("f7");
    reveal_strlit("f8");
    reveal_strlit("f9");
    reveal_strlit("fn");
    reveal_strlit("forwarddelete");
    reveal_strlit("g");
    reveal_strlit("h");
    reveal_strlit("help");
    reveal_strlit("home");
    reveal_strlit("i");
    reveal_strlit("j");
    reveal_strlit("k");
    reveal_strlit("keypad*");
    reveal_strlit("keypad+");
    reveal_strlit("keypad-");
    reveal_strlit("keypad.");
    reveal_strlit("keypad/");
    reveal_strlit("keypad0");
    reveal_strlit("keypad1");
    reveal_strlit("keypad2");
    reveal_strlit("keypad3");
    reveal_strlit("keypad4");
    reveal_strlit("keypad5");
    reveal_strlit("keypad6");
    reveal_strlit("keypad7");
    reveal_strlit("keypad8");
    reveal_strlit("keypad9");
    reveal_strlit("keypad=");
    reveal_strlit("keypadclear");
    reveal_strlit("keypadenter");
    reveal_strlit("l");
    reveal_strlit("left");
    reveal_strlit("m");
    reveal_strlit("n");
    reveal_strlit("o");
    reveal_strlit("option");
    reveal_strlit("p");
    reveal_strlit("pagedown");
    reveal_strlit("pageup");
    reveal_strlit("q");
    reveal_strlit("r");
    reveal_strlit("return");
    reveal_strlit("right");
    reveal_strlit("rightcontrol");
    reveal_strlit("rightoption");
    reveal_strlit("rightshift");
    reveal_strlit("s");
    reveal_strlit("shift");
    reveal_strlit("space");
    reveal_strlit("t");
    reveal_strlit("tab");
    reveal_strlit("u");
    reveal_strlit("up");
    reveal_strlit("v");
    reveal_strlit("w");
    reveal_strlit("x");
    reveal_strlit("y");
    reveal_strlit("z");
    reveal_strlit("unknown");
}

/// The table and the sentinel do not overlap: a code has the symbol
/// `"unknown"` exactly when the table has no entry for it.
pub proof fn lemma_unknown_iff_absent(code: int)
    ensures
        is_known_code(code) <==> symbol_of(code) != unknown_symbol(),
{
    lemma_symbol_literals();
    let symbol = symbol_of(code);
    let unknown = unknown_symbol();
    assert(unknown.len() == 7 && unknown[0] == 'u');
    if is_known_code(code) {
        assert(symbol.len() != 7 || symbol[0] != 'u');
    } else {
        assert(symbol == unknown);
    }
}

/// Every character of a symbol is ASCII and no capital letter.
pub proof fn lemma_symbol_is_lowercase_ascii(code: int, i: int)
    requires
        0 <= i < symbol_of(code).len(),
    ensures
        (symbol_of(code)[i] as u32) < 128,
        !('A' <= symbol_of(code)[i] <= 'Z'),
{
    lemma_symbol_literals();
}

impl KeyStrokeRecorder {
    /// The symbol of the key with code `code`, `"unknown"` for a code that the
    /// table does not hold.
    pub fn key_code_to_name(code: i64) -> (name: &'static str)
        ensures
            name@ == symbol_of(code as int),
            !is_known_code(code as int) ==> name@ == unknown_symbol(),
    {
        match code {
            0 => "a",
            1 => "s",
            2 => "d",
            3 => "f",
            4 => "h",
            5 => "g",
            6 => "z",
            7 => "x",
            8 => "c",
            9 => "v",
            11 => "b",
            12 => "q",
            13 => "w",
            14 => "e",
            15 => "r",
            16 => "y",
            17 => "t",
            18 => "1",
            19 => "2",
            20 => "3",
            21 => "4",
            22 => "6",
            23 => "5",
            24 => "=",
            25 => "9",
            26 => "7",
            27 => "-",
            28 => "8",
            29 => "0",
            30 => "]",
            31 => "o",
            32 => "u",
            33 => "[",
            34 => "i",
            35 => "p",
            36 => "return",
            37 => "l",
            38 => "j",
            39 => "'",
            40 => "k",
            41 => ";",
            42 => "\\",
            43 => ",",
            44 => "/",
            45 => "n",
            46 => "m",
            47 => ".",
            48 => "tab",
            49 => "space",
            50 => "`",
            51 => "delete",
            53 => "escape",
            55 => "command",
            56 => "shift",
            57 => "capslock",
            58 => "option",
            59 => "control",
            60 => "rightshift",
            61 => "rightoption",
            62 => "rightcontrol",
            63 => "fn",
            64 => "f17",
            65 => "keypad.",
            67 => "keypad*",
            69 => "keypad+",
            71 => "keypadclear",
            75 => "keypad/",
            76 => "keypadenter",
            78 => "keypad-",
            79 => "f18",
            80 => "f19",
            81 => "keypad=",
            82 => "keypad0",
            83 => "keypad1",
            84 => "keypad2",
            85 => "keypad3",
            86 => "keypad4",
            87 => "keypad5",
            88 => "keypad6",
            89 => "keypad7",
            90 => "f20",
            91 => "keypad8",
            92 => "keypad9",
            96 => "f5",
            97 => "f6",
            98 => "f7",
            99 => "f3",
            100 => "f8",
            101 => "f9",
            103 => "f11",
            105 => "f13",
            106 => "f16",
            107 => "f14",
            109 => "f10",
            111 => "f12",
            113 => "f15",
            114 => "help",
            115 => "home",
            116 => "pageup",
            117 => "forwarddelete",
            118 => "f4",
            119 => "end",
            120 => "f2",
            121 => "pagedown",
            122 => "f1",
            123 => "left",
            124 => "right",
            125 => "down",
            126 => "up",
            _ => "unknown",
        }
    }
}

} // verus!
