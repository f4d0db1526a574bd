//! From a command to the characters that go out on the wire.

use super::{mode_code, mode_code_of, CatCommand, Command};
use crate::text::{decimal, join3, push_decimal};
use vstd::prelude::*;
use vstd::string::*;

verus! {

/// The code that stands for a mode name on the wire: the name's code in the
/// mode table, or that of DATA-USB where the table does not hold the name.
pub open spec fn wire_mode_code(name: Seq<char>) -> Seq<char> {
    match mode_code_of(name) {
        Some(code) => code,
        None => "C"@,
    }
}

/// The wire string of a command, terminator included.
pub open spec fn wire(cmd: Command) -> Seq<char> {
    match cmd {
        Command::GetFrequencyA => "FA;"@,
        Command::SetFrequencyA(hz) => "FA"@ + decimal(hz as nat, 11) + ";"@,
        Command::GetMode => "MD0;"@,
        Command::SetMode(name) => "MD0"@ + wire_mode_code(name) + ";"@,
        Command::PttOff => "TX0;"@,
        Command::PttOn => "TX1;"@,
        Command::GetTxPower => "PC;"@,
        Command::SetTxPower(watts) => "PC"@ + decimal(watts as nat, 3) + ";"@,
    }
}

/// Encodes a command as its wire string. A mode name that the mode table does
/// not hold is sent as DATA-USB.
pub fn encode(cmd: &CatCommand) -> (text: String)
    ensures
        text@ == wire(cmd@),
{
    match cmd {
        CatCommand::GetFrequencyA => String::from_str("FA;"),
        CatCommand::SetFrequencyA(hz) => {
            let mut text = String::from_str("FA");
            push_decimal(&mut text, *hz, 11);
            text.append(";");
            text
        },
        CatCommand::GetMode => String::from_str("MD0;"),
        CatCommand::SetMode(name) => {
            let code = match mode_code(name.as_str()) {
                Some(code) => code,
                None => "C",
            };
            join3("MD0", code, ";")
        },
        CatCommand::PttOff => String::from_str("TX0;"),
        CatCommand::PttOn => String::from_str("TX1;"),
        CatCommand::GetTxPower => String::from_str("PC;"),
        CatCommand::SetTxPower(watts) => {
            let mut text = String::from_str("PC");
            push_decimal(&mut text, *watts as u64, 3);
            text.append(";");
            text
        },
    }
}

} // verus!
