use vstd::prelude::*;

verus! {

/// A point in time as seconds and nanoseconds since the Unix epoch, in UTC.
#[derive(Clone, Copy, Debug, PartialEq, Eq, Structural)]
pub struct Timestamp {
    pub secs: i64,
    pub nanos: u32,
}

/// One entry of the projects list.
#[derive(Clone, Debug)]
pub struct Project {
    pub id: usize,
    pub name: String,
    pub category: String,
    pub age: usize,
    pub created_at: Timestamp,
}

/// One entry of the experience list.
#[derive(Clone, Debug)]
pub struct Experience {
    pub id: usize,
    pub position: String,
    pub company: String,
    pub duration: String,
    pub description: Vec<String>,
}

/// Why a record list could not be had: the file could not be read, or its
/// text is not a list of records. Each carries the underlying message.
#[derive(Clone, Debug)]
pub enum Error {
    ReadDBError(String),
    ParseDBError(String),
}

impl Project {
    /// A field-by-field copy.
    pub fn copied(&self) -> (r: Project)
        ensures
            r == *self,
    {
        Project {
            id: self.id,
            name: self.name.clone(),
            category: self.category.clone(),
            age: self.age,
            created_at: self.created_at,
        }
    }
}

/// The text shown for a store error.
pub open spec fn error_text(e: Error) -> Seq<char> {
    match e {
        Error::ReadDBError(m) => "error reading the DB file: "@ + m@,
        Error::ParseDBError(m) => "error parsing the DB file: "@ + m@,
    }
}

impl Error {
    /// The text shown for this error.
    pub fn message(&self) -> (r: String)
        ensures
            r@ == error_text(*self),
    {
        match self {
            Error::ReadDBError(m) => {
                proof {
                    reveal_strlit("error reading the DB file: ");
                }
                String::from_str("error reading the DB file: ").concat(m.as_str())
            },
            Error::ParseDBError(m) => {
                proof {
                    reveal_strlit("error parsing the DB file: ");
                }
                String::from_str("error parsing the DB file: ").concat(m.as_str())
            },
        }
    }
}

} // verus!
