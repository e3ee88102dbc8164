use vstd::prelude::*;

verus! {

/// A unique identifier for a command.
#[derive(Debug, PartialEq, Eq, Hash)]
pub struct Command(String);

impl View for Command {
    type V = Seq<char>;

    closed spec fn view(&self) -> Seq<char> {
        self.0@
    }
}

impl Command {
    /// Creates a new command identifier.
    pub fn new(id: &str) -> (r: Command)
        ensures
            r@ == id@,
    {
        Command(id.to_owned())
    }

    /// The identifier as a string slice.
    pub fn as_str(&self) -> (r: &str)
        ensures
            r@ == self@,
    {
        self.0.as_str()
    }
}

impl Command {
    /// The identifier as an owned string, as it is displayed.
    pub fn to_string(&self) -> (r: String)
        ensures
            r@ == self@,
    {
        self.0.clone()
    }
}

impl From<String> for Command {
    /// Takes the string as the identifier.
    fn from(id: String) -> (r: Command)
        ensures
            r@ == id@,
    {
        Command(id)
    }
}

impl vstd::std_specs::convert::FromSpecImpl<String> for Command {
    open spec fn obeys_from_spec() -> bool {
        true
    }

    closed spec fn from_spec(id: String) -> Command {
        Command(id)
    }
}

impl From<&str> for Command {
    /// Copies the string slice into the identifier.
    fn from(id: &str) -> (r: Command)
        ensures
            r@ == id@,
    {
        Command(id.to_owned())
    }
}

impl vstd::std_specs::convert::FromSpecImpl<&str> for Command {
    /// A string slice has no owned string in spec code to be taken as the identifier, so
    /// what `from` gives is stated by its own `ensures`: a command whose identifier is the
    /// slice's characters.
    open spec fn obeys_from_spec() -> bool {
        false
    }

    closed spec fn from_spec(id: &str) -> Command {
        choose|c: Command| c@ == id@
    }
}

impl std::str::FromStr for Command {
    type Err = std::convert::Infallible;

    /// Takes the whole string as the identifier; never fails.
    fn from_str(s: &str) -> (r: Result<Command, std::convert::Infallible>)
        ensures
            r matches Ok(c) && c@ == s@,
    {
        Ok(Command::new(s))
    }
}

impl Clone for Command {
    fn clone(&self) -> (r: Command)
        ensures
            r == *self,
    {
        Command(self.0.clone())
    }
}

} // verus!
