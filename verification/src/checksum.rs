//! Map-checksum import helpers: turns the per-map records read from disk
//! (a SHA-1 digest as raw bytes, a path and a 32-bit checksum) into the
//! items the controller's import call takes, with the digest rendered as
//! lower-case hexadecimal.

use vstd::prelude::*;
use vstd::string::StringExecFns;

verus! {

/// One record as it sits on disk.
#[derive(Debug, Clone)]
pub struct MapChecksumContent {
    pub sha1: Vec<u8>,
    pub path: String,
    pub checksum: u32,
}

/// One item of the aggregated import request.
#[derive(Debug, Clone)]
pub struct MapChecksumImportItem {
    pub sha1: String,
    pub checksum: u32,
}

/// The lower-case hexadecimal digit of a value below 16.
pub open spec fn hex_digit(n: int) -> char {
    if n == 0 {
        '0'
    } else if n == 1 {
        '1'
    } else if n == 2 {
        '2'
    } else if n == 3 {
        '3'
    } else if n == 4 {
        '4'
    } else if n == 5 {
        '5'
    } else if n == 6 {
        '6'
    } else if n == 7 {
        '7'
    } else if n == 8 {
        '8'
    } else if n == 9 {
        '9'
    } else if n == 10 {
        'a'
    } else if n == 11 {
        'b'
    } else if n == 12 {
        'c'
    } else if n == 13 {
        'd'
    } else if n == 14 {
        'e'
    } else {
        'f'
    }
}

/// The hexadecimal rendering of a byte string: two digits per byte, high
/// nibble first.
pub open spec fn hex_of(bytes: Seq<u8>) -> Seq<char>
    decreases bytes.len(),
{
    if bytes.len() == 0 {
        Seq::empty()
    } else {
        hex_of(bytes.drop_last()) + seq![
            hex_digit(bytes.last() as int / 16),
            hex_digit(bytes.last() as int % 16),
        ]
    }
}

/// Appends one hexadecimal digit.
fn push_hex_digit(s: &mut String, n: u8)
    requires
        n < 16,
    ensures
        final(s)@ == old(s)@ + seq![hex_digit(n as int)],
{
    match n {
        0 => {
            s.append("0");
            proof {
                reveal_strlit("0");
                assert(s@ =~= old(s)@ + seq![hex_digit(n as int)]);
            }
        },
        1 => {
            s.append("1");
            proof {
                reveal_strlit("1");
                assert(s@ =~= old(s)@ + seq![hex_digit(n as int)]);
            }
        },
        2 => {
            s.append("2");
            proof {
                reveal_strlit("2");
                assert(s@ =~= old(s)@ + seq![hex_digit(n as int)]);
            }
        },
        3 => {
            s.append("3");
            proof {
                reveal_strlit("3");
                assert(s@ =~= old(s)@ + seq![hex_digit(n as int)]);
            }
        },
        4 => {
            s.append("4");
            proof {
                reveal_strlit("4");
                assert(s@ =~= old(s)@ + seq![hex_digit(n as int)]);
            }
        },
        5 => {
            s.append("5");
            proof {
                reveal_strlit("5");
                assert(s@ =~= old(s)@ + seq![hex_digit(n as int)]);
            }
        },
        6 => {
            s.append("6");
            proof {
                reveal_strlit("6");
                assert(s@ =~= old(s)@ + seq![hex_digit(n as int)]);
            }
        },
        7 => {
            s.append("7");
            proof {
                reveal_strlit("7");
                assert(s@ =~= old(s)@ + seq![hex_digit(n as int)]);
            }
        },
        8 => {
            s.append("8");
            proof {
                reveal_strlit("8");
                assert(s@ =~= old(s)@ + seq![hex_digit(n as int)]);
            }
        },
        9 => {
            s.append("9");
            proof {
                reveal_strlit("9");
                assert(s@ =~= old(s)@ + seq![hex_digit(n as int)]);
            }
        },
        10 => {
            s.append("a");
            proof {
                reveal_strlit("a");
                assert(s@ =~= old(s)@ + seq![hex_digit(n as int)]);
            }
        },
        11 => {
            s.append("b");
            proof {
                reveal_strlit("b");
                assert(s@ =~= old(s)@ + seq![hex_digit(n as int)]);
            }
        },
        12 => {
            s.append("c");
            proof {
                reveal_strlit("c");
                assert(s@ =~= old(s)@ + seq![hex_digit(n as int)]);
            }
        },
        13 => {
            s.append("d");
            proof {
                reveal_strlit("d");
                assert(s@ =~= old(s)@ + seq![hex_digit(n as int)]);
            }
        },
        14 => {
            s.append("e");
            proof {
                reveal_strlit("e");
                assert(s@ =~= old(s)@ + seq![hex_digit(n as int)]);
            }
        },
        _ => {
            s.append("f");
            proof {
                reveal_strlit("f");
                assert(s@ =~= old(s)@ + seq![hex_digit(n as int)]);
            }
        },
    }
}

/// Renders a byte string as lower-case hexadecimal, two digits per byte.
pub fn to_hex(bytes: &Vec<u8>) -> (r: String)
    ensures
        r@ == hex_of(bytes@),
{
    let mut s = String::new();
    let mut i: usize = 0;
    while i < bytes.len()
        invariant
            i <= bytes@.len(),
            s@ == hex_of(bytes@.take(i as int)),
        decreases bytes@.len() - i,
    {
        let b = bytes[i];
        push_hex_digit(&mut s, b / 16);
        push_hex_digit(&mut s, b % 16);
        proof {
            assert(bytes@.take(i + 1).drop_last() =~= bytes@.take(i as int));
            assert(bytes@.take(i + 1).last() == bytes@[i as int]);
            assert(s@ =~= hex_of(bytes@.take(i + 1)));
        }
        i = i + 1;
    }
    proof {
        assert(bytes@.take(bytes@.len() as int) =~= bytes@);
    }
    s
}

/// Turns one on-disk record into an import item.
pub fn import_item(content: &MapChecksumContent) -> (r: MapChecksumImportItem)
    ensures
        r.sha1@ == hex_of(content.sha1@),
        r.checksum == content.checksum,
{
    MapChecksumImportItem { sha1: to_hex(&content.sha1), checksum: content.checksum }
}

/// Aggregates every record of a directory into one import request.
pub fn collect_items(contents: &Vec<MapChecksumContent>) -> (r: Vec<MapChecksumImportItem>)
    ensures
        r@.len() == contents@.len(),
        forall|k: int|
            0 <= k < contents@.len() ==> {
                let item = #[trigger] r@[k];
                &&& item.sha1@ == hex_of(contents@[k].sha1@)
                &&& item.checksum == contents@[k].checksum
            },
{
    let mut r: Vec<MapChecksumImportItem> = Vec::new();
    let mut i: usize = 0;
    while i < contents.len()
        invariant
            i <= contents@.len(),
            r@.len() == i,
            forall|k: int|
                0 <= k < i ==> {
                    let item = #[trigger] r@[k];
                    &&& item.sha1@ == hex_of(contents@[k].sha1@)
                    &&& item.checksum == contents@[k].checksum
                },
        decreases contents@.len() - i,
    {
        let item = import_item(&contents[i]);
        r.push(item);
        i = i + 1;
    }
    r
}

} // verus!
