//! The CAT protocol of the FT-991A: commands, replies and the mode table.
//!
//! `encode` and `decode` go between typed values and the wire format
//! without any I/O; `session` drives a serial connection with them.

pub mod decode;
pub mod encode;
pub mod laws;
pub mod session;

pub use decode::decode;
pub use encode::encode;
pub use session::CatSession;

use crate::text::same_text;
use vstd::prelude::*;

verus! {

/// A command for the radio.
#[derive(Debug, PartialEq)]
pub enum CatCommand {
    /// Ask for the frequency of VFO A.
    GetFrequencyA,
    /// Tune VFO A to a frequency in Hz.
    SetFrequencyA(u64),
    /// Ask for the operating mode.
    GetMode,
    /// Select an operating mode by its name, such as `DATA-USB`.
    SetMode(String),
    /// Release the transmitter.
    PttOff,
    /// Key the transmitter.
    PttOn,
    /// Ask for the transmit power.
    GetTxPower,
    /// Set the transmit power in watts.
    SetTxPower(u32),
}

/// A reply of the radio.
#[derive(Debug, PartialEq)]
pub enum CatResponse {
    /// The frequency of VFO A in Hz.
    FrequencyHz(u64),
    /// The name of the operating mode.
    Mode(String),
    /// The transmit power in watts.
    TxPower(u32),
    /// The command was accepted.
    Ack,
}

/// A command, with a mode name as a character sequence.
pub enum Command {
    GetFrequencyA,
    SetFrequencyA(u64),
    GetMode,
    SetMode(Seq<char>),
    PttOff,
    PttOn,
    GetTxPower,
    SetTxPower(u32),
}

/// A reply, with a mode name as a character sequence.
pub enum Response {
    FrequencyHz(u64),
    Mode(Seq<char>),
    TxPower(u32),
    Ack,
}

impl View for CatCommand {
    type V = Command;

    open spec fn view(&self) -> Command {
        match self {
            CatCommand::GetFrequencyA => Command::GetFrequencyA,
            CatCommand::SetFrequencyA(hz) => Command::SetFrequencyA(*hz),
            CatCommand::GetMode => Command::GetMode,
            CatCommand::SetMode(name) => Command::SetMode(name@),
            CatCommand::PttOff => Command::PttOff,
            CatCommand::PttOn => Command::PttOn,
            CatCommand::GetTxPower => Command::GetTxPower,
            CatCommand::SetTxPower(watts) => Command::SetTxPower(*watts),
        }
    }
}

impl Clone for CatCommand {
    fn clone(&self) -> (copy: Self)
        ensures
            copy == *self,
    {
        match self {
            CatCommand::GetFrequencyA => CatCommand::GetFrequencyA,
            CatCommand::SetFrequencyA(hz) => CatCommand::SetFrequencyA(*hz),
            CatCommand::GetMode => CatCommand::GetMode,
            CatCommand::SetMode(name) => CatCommand::SetMode(name.clone()),
            CatCommand::PttOff => CatCommand::PttOff,
            CatCommand::PttOn => CatCommand::PttOn,
            CatCommand::GetTxPower => CatCommand::GetTxPower,
            CatCommand::SetTxPower(watts) => CatCommand::SetTxPower(*watts),
        }
    }
}

impl View for CatResponse {
    type V = Response;

    open spec fn view(&self) -> Response {
        match self {
            CatResponse::FrequencyHz(hz) => Response::FrequencyHz(*hz),
            CatResponse::Mode(name) => Response::Mode(name@),
            CatResponse::TxPower(watts) => Response::TxPower(*watts),
            CatResponse::Ack => Response::Ack,
        }
    }
}

/// Number of operating modes that the radio knows.
pub const MODE_COUNT: usize = 14;

/// The mode table: entry `i` as the pair of the one-character code and the name.
pub open spec fn mode_entry(i: int) -> (Seq<char>, Seq<char>) {
    if i == 0 {
        ("1"@, "LSB"@)
    } else if i == 1 {
        ("2"@, "USB"@)
    } else if i == 2 {
        ("3"@, "CW"@)
    } else if i == 3 {
        ("4"@, "FM"@)
    } else if i == 4 {
        ("5"@, "AM"@)
    } else if i == 5 {
        ("6"@, "RTTY-LSB"@)
    } else if i == 6 {
        ("7"@, "CW-R"@)
    } else if i == 7 {
        ("8"@, "DATA-LSB"@)
    } else if i == 8 {
        ("9"@, "RTTY-USB"@)
    } else if i == 9 {
        ("A"@, "DATA-FM"@)
    } else if i == 10 {
        ("B"@, "FM-N"@)
    } else if i == 11 {
        ("C"@, "DATA-USB"@)
    } else if i == 12 {
        ("D"@, "AM-N"@)
    } else {
        ("E"@, "C4FM"@)
    }
}

/// The name of the mode with the given code, if the table holds the code.
pub open spec fn mode_name_of(code: Seq<char>) -> Option<Seq<char>> {
    if exists|i: int| 0 <= i < MODE_COUNT && mode_entry(i).0 == code {
        Some(mode_entry(choose|i: int| 0 <= i < MODE_COUNT && mode_entry(i).0 == code).1)
    } else {
        None
    }
}

/// The code of the mode with the given name, if the table holds the name.
pub open spec fn mode_code_of(name: Seq<char>) -> Option<Seq<char>> {
    if exists|i: int| 0 <= i < MODE_COUNT && mode_entry(i).1 == name {
        Some(mode_entry(choose|i: int| 0 <= i < MODE_COUNT && mode_entry(i).1 == name).0)
    } else {
        None
    }
}

/// Entry `i` of the mode table, the code and the name, or `None` where the
/// table has no entry `i`.
pub fn mode_at(i: usize) -> (entry: Option<(&'static str, &'static str)>)
    ensures
        i >= MODE_COUNT ==> entry is None,
        i < MODE_COUNT ==> entry is Some && (entry.unwrap().0@, entry.unwrap().1@) == mode_entry(
            i as int,
        ),
{
    match i {
        0 => Some(("1", "LSB")),
        1 => Some(("2", "USB")),
        2 => Some(("3", "CW")),
        3 => Some(("4", "FM")),
        4 => Some(("5", "AM")),
        5 => Some(("6", "RTTY-LSB")),
        6 => Some(("7", "CW-R")),
        7 => Some(("8", "DATA-LSB")),
        8 => Some(("9", "RTTY-USB")),
        9 => Some(("A", "DATA-FM")),
        10 => Some(("B", "FM-N")),
        11 => Some(("C", "DATA-USB")),
        12 => Some(("D", "AM-N")),
        13 => Some(("E", "C4FM")),
        _ => None,
    }
}

/// No two entries of the mode table share a code, and no two share a name.
pub proof fn lemma_mode_table_distinct(i: int, j: int)
    requires
        0 <= i < MODE_COUNT,
        0 <= j < MODE_COUNT,
        mode_entry(i).0 == mode_entry(j).0 || mode_entry(i).1 == mode_entry(j).1,
    ensures
        i == j,
{
    reveal_strlit("1");
    reveal_strlit("2");
    reveal_strlit("3");
    reveal_strlit("4");
    reveal_strlit("5");
    reveal_strlit("6");
    reveal_strlit("7");
    reveal_strlit("8");
    reveal_strlit("9");
    reveal_strlit("A");
    reveal_strlit("B");
    reveal_strlit("C");
    reveal_strlit("D");
    reveal_strlit("E");
    reveal_strlit("LSB");
    reveal_strlit("USB");
    reveal_strlit("CW");
    reveal_strlit("FM");
    reveal_strlit("AM");
    reveal_strlit("RTTY-LSB");
    reveal_strlit("CW-R");
    reveal_strlit("DATA-LSB");
    reveal_strlit("RTTY-USB");
    reveal_strlit("DATA-FM");
    reveal_strlit("FM-N");
    reveal_strlit("DATA-USB");
    reveal_strlit("AM-N");
    reveal_strlit("C4FM");
    let a = mode_entry(i);
    let b = mode_entry(j);
    if a.0 == b.0 {
        assert(a.0[0] == b.0[0]);
    } else {
        assert(a.1.len() == b.1.len() && a.1[0] == b.1[0] && a.1[1] == b.1[1] && a.1[5] == b.1[5]);
    }
}

/// Every entry of the mode table is found by its code and by its name.
pub proof fn lemma_mode_table_lookup(i: int)
    requires
        0 <= i < MODE_COUNT,
    ensures
        mode_name_of(mode_entry(i).0) == Some(mode_entry(i).1),
        mode_code_of(mode_entry(i).1) == Some(mode_entry(i).0),
{
    let by_code = choose|j: int| 0 <= j < MODE_COUNT && mode_entry(j).0 == mode_entry(i).0;
    lemma_mode_table_distinct(by_code, i);
    let by_name = choose|j: int| 0 <= j < MODE_COUNT && mode_entry(j).1 == mode_entry(i).1;
    lemma_mode_table_distinct(by_name, i);
}

/// The name of the mode with the given code.
pub fn mode_name(code: &str) -> (name: Option<&'static str>)
    ensures
        match name {
            Some(found) => mode_name_of(code@) == Some(found@),
            None => mode_name_of(code@) is None,
        },
{
    let mut i: usize = 0;
    while i < MODE_COUNT
        invariant
            i <= MODE_COUNT,
            forall|j: int| 0 <= j < i ==> mode_entry(j).0 != code@,
        decreases MODE_COUNT - i,
    {
        match mode_at(i) {
            Some(entry) => {
                if same_text(entry.0, code) {
                    proof {
                        lemma_mode_table_lookup(i as int);
                    }
                    return Some(entry.1);
                }
            },
            None => {},
        }
        i += 1;
    }
    None
}

/// The code of the mode with the given name.
pub fn mode_code(name: &str) -> (code: Option<&'static str>)
    ensures
        match code {
            Some(found) => mode_code_of(name@) == Some(found@),
            None => mode_code_of(name@) is None,
        },
{
    let mut i: usize = 0;
    while i < MODE_COUNT
        invariant
            i <= MODE_COUNT,
            forall|j: int| 0 <= j < i ==> mode_entry(j).1 != name@,
        decreases MODE_COUNT - i,
    {
        match mode_at(i) {
            Some(entry) => {
                if same_text(entry.1, name) {
                    proof {
                        lemma_mode_table_lookup(i as int);
                    }
                    return Some(entry.0);
                }
            },
            None => {},
        }
        i += 1;
    }
    None
}

} // verus!
