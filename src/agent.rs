use vstd::prelude::*;
use vstd::string::*;

verus! {

/// The voice agent: it acknowledges what it is told, naming its database.
#[derive(Default)]
pub struct BpgtAgent {
    db_path: String,
}

impl BpgtAgent {
    /// The database path this agent names.
    pub closed spec fn db(&self) -> Seq<char> {
        self.db_path@
    }

    pub fn new(db_path: &str) -> (r: Self)
        ensures
            r.db() == db_path@,
    {
        BpgtAgent { db_path: String::from_str(db_path) }
    }

    /// The acknowledgement of voice input `text`.
    pub fn process_voice(&self, text: &str) -> (r: Result<String, String>)
        ensures
            r matches Ok(s) && s@ == "BPGT agent accepted voice input for '"@ + self.db() + "': "@
                + text@,
    {
        let ack = String::from_str("BPGT agent accepted voice input for '").concat(
            self.db_path.as_str(),
        ).concat("': ").concat(text);
        Ok(ack)
    }
}

} // verus!
