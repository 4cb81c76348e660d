//! What the operator asked for on the command line, and which serial port to
//! use.

use vstd::prelude::*;
use vstd::string::StringExecFns;
use crate::serial_io::PortInfo;
use crate::transfer::Action;
use crate::variant::EepromVariant;

verus! {

/// The action that a word of the command line names, if it names one:
/// `w` or `write`, `r` or `read`.
pub open spec fn action_named(word: Seq<char>) -> Option<Action> {
    if word == "w"@ || word == "write"@ {
        Some(Action::WriteRom)
    } else if word == "r"@ || word == "read"@ {
        Some(Action::ReadRom)
    } else {
        None
    }
}

/// Computes `action_named`.
pub fn parse_action(word: &String) -> (action: Option<Action>)
    ensures
        action == action_named(word@),
{
    if *word == String::from_str("w") || *word == String::from_str("write") {
        Some(Action::WriteRom)
    } else if *word == String::from_str("r") || *word == String::from_str("read") {
        Some(Action::ReadRom)
    } else {
        None
    }
}

/// One run of the program: what to do, with which file, and on which port
/// and chip if the command line names them.
#[derive(Debug)]
pub struct Config {
    pub action: Action,
    /// The file that the image is read from or written to.
    pub file: String,
    /// The serial port to use; `None` leaves the choice to the search.
    pub serial_port: Option<String>,
    /// The chip; `None` leaves the choice to the operator.
    pub variant: Option<EepromVariant>,
}

impl Config {
    /// Reads the command line: the program's name, the action, the file.
    ///
    /// Fewer than three arguments are refused, and so is an action that is
    /// none of the four words. The port and the chip are left open.
    pub fn build(args: &[String]) -> (config: Result<Config, String>)
        ensures
            config is Ok <==> args@.len() >= 3 && action_named(args@[1]@) is Some,
            match config {
                Ok(c) => {
                    &&& args@.len() >= 3
                    &&& action_named(args@[1]@) == Some(c.action)
                    &&& c.file@ == args@[2]@
                    &&& c.serial_port is None
                    &&& c.variant is None
                },
                Err(message) => if args@.len() < 3 {
                    message@ == "not enough arguments"@
                } else {
                    &&& action_named(args@[1]@) is None
                    &&& message@ == "invalid action: "@ + args@[1]@
                },
            },
    {
        if args.len() < 3 {
            return Err(String::from_str("not enough arguments"));
        }
        let action = match parse_action(&args[1]) {
            Some(action) => action,
            None => {
                return Err(String::from_str("invalid action: ").concat(args[1].as_str()));
            },
        };
        let file: String = args[2].clone();
        Ok(Config { action, file, serial_port: None, variant: None })
    }
}

/// Which port to use, as far as the ports found decide it.
#[derive(Debug, PartialEq, Eq)]
pub enum PortChoice {
    /// No programmer is connected.
    NoneFound,
    /// One programmer is connected: this is its port.
    Only(String),
    /// Several are connected: the operator is to pick one of these names.
    Among(Vec<String>),
}

/// Decides on the port from the programmers' ports that were found: none,
/// the only one, or the names to choose among, in the order of the ports.
pub fn choose_serial_port(ports: &Vec<PortInfo>) -> (choice: PortChoice)
    ensures
        match choice {
            PortChoice::NoneFound => ports@.len() == 0,
            PortChoice::Only(name) => ports@.len() == 1 && name@ == ports@[0].port_name@,
            PortChoice::Among(names) => {
                &&& ports@.len() >= 2
                &&& names@.len() == ports@.len()
                &&& forall|i: int| 0 <= i < names@.len() ==> names@[i]@ == ports@[i].port_name@
            },
        },
{
    if ports.len() == 0 {
        PortChoice::NoneFound
    } else if ports.len() == 1 {
        PortChoice::Only(ports[0].port_name.clone())
    } else {
        let mut names: Vec<String> = Vec::new();
        let mut i: usize = 0;
        while i < ports.len()
            invariant
                i <= ports@.len(),
                names@.len() == i,
                forall|j: int| 0 <= j < i ==> names@[j]@ == ports@[j].port_name@,
            decreases ports@.len() - i,
        {
            names.push(ports[i].port_name.clone());
            i += 1;
        }
        PortChoice::Among(names)
    }
}

} // verus!
