//! What can go wrong while a burnchain is followed.
use crate::hash::BurnchainHeaderHash;
use crate::pox_id::PoxId;
use vstd::prelude::*;
use vstd::string::StringExecFns;

verus! {

/// A failure of the bitcoin driver, by its description.
#[derive(Debug, Clone, PartialEq, Eq)]
pub struct BitcoinError(pub String);

/// A failure to process an operation of the Stacks chain, by its description.
#[derive(Debug, Clone, PartialEq, Eq)]
pub struct OpError(pub String);

/// A failure of the burn database.
#[derive(Debug)]
pub enum DBError {
    /// The database engine failed.
    SqliteError(rusqlite::Error),
    /// Any other failure, by its description.
    Other(String),
}

#[derive(Debug)]
pub enum Error {
    /// Unsupported burn chain
    UnsupportedBurnchain,
    /// Bitcoin-related error
    Bitcoin(BitcoinError),
    /// burn database error
    DBError(DBError),
    /// Download error
    DownloadError(BitcoinError),
    /// Parse error
    ParseError,
    /// Thread channel error
    ThreadChannelError,
    /// Missing headers
    MissingHeaders,
    /// Missing parent block
    MissingParentBlock,
    /// Remote burnchain peer has misbehaved
    BurnchainPeerBroken,
    /// filesystem error
    FSError(std::io::Error),
    /// Operation processing error
    OpError(OpError),
    /// Try again error
    TrySyncAgain,
    UnknownBlock(BurnchainHeaderHash),
    NonCanonicalPoxId(PoxId, PoxId),
    CoordinatorClosed,
}

/// The error that lies behind an [`Error`].
pub enum Cause<'a> {
    Bitcoin(&'a BitcoinError),
    DB(&'a DBError),
    FS(&'a std::io::Error),
    Op(&'a OpError),
}

impl DBError {
    /// Whether `text` is what the failure is shown as. A failure of the database engine is
    /// shown as that engine shows it.
    pub open spec fn shown_as(&self, text: String) -> bool {
        match self {
            DBError::SqliteError(e) => vstd::string::to_string_from_display_ensures::<
                rusqlite::Error,
            >(e, text),
            DBError::Other(message) => text@ == message@,
        }
    }

    /// The failure as it is shown to a reader.
    pub fn to_string(&self) -> (text: String)
        ensures
            self.shown_as(text),
    {
        match self {
            DBError::SqliteError(e) => e.to_string(),
            DBError::Other(message) => message.clone(),
        }
    }
}

impl<'a> Cause<'a> {
    /// Whether `text` is what the underlying error is shown as.
    pub open spec fn shown_as(&self, text: String) -> bool {
        match self {
            Cause::Bitcoin(e) => text@ == e.0@,
            Cause::DB(e) => e.shown_as(text),
            Cause::FS(e) => vstd::string::to_string_from_display_ensures::<std::io::Error>(e, text),
            Cause::Op(e) => text@ == e.0@,
        }
    }
}

impl Error {
    /// Whether `text` is what the error is shown as. Errors of the file system and of the
    /// database engine are shown as they show themselves.
    pub open spec fn shown_as(&self, text: String) -> bool {
        match self {
            Error::UnsupportedBurnchain => text@ == "Unsupported burnchain"@,
            Error::Bitcoin(e) => text@ == e.0@,
            Error::DBError(e) => e.shown_as(text),
            Error::DownloadError(e) => text@ == e.0@,
            Error::ParseError => text@ == "Parse error"@,
            Error::MissingHeaders => text@ == "Missing block headers"@,
            Error::MissingParentBlock => text@ == "Missing parent block"@,
            Error::ThreadChannelError => text@ == "Error in thread channel"@,
            Error::BurnchainPeerBroken => text@ == "Remote burnchain peer has misbehaved"@,
            Error::FSError(e) => vstd::string::to_string_from_display_ensures::<std::io::Error>(
                e,
                text,
            ),
            Error::OpError(e) => text@ == e.0@,
            Error::TrySyncAgain => text@ == "Try synchronizing again"@,
            Error::UnknownBlock(block) => text@ == "Unknown burnchain block "@
                + crate::hex::hex_encode(block@),
            Error::NonCanonicalPoxId(parent, child) => text@ == parent.text()
                + " is not a descendant of the canonical parent PoXId: "@ + child.text(),
            Error::CoordinatorClosed => text@ == "ChainsCoordinator channel hung up"@,
        }
    }

    /// The error as it is shown to a reader.
    pub fn to_string(&self) -> (text: String)
        ensures
            self.shown_as(text),
    {
        match self {
            Error::UnsupportedBurnchain => "Unsupported burnchain".to_string(),
            Error::Bitcoin(e) => e.0.clone(),
            Error::DBError(e) => e.to_string(),
            Error::DownloadError(e) => e.0.clone(),
            Error::ParseError => "Parse error".to_string(),
            Error::MissingHeaders => "Missing block headers".to_string(),
            Error::MissingParentBlock => "Missing parent block".to_string(),
            Error::ThreadChannelError => "Error in thread channel".to_string(),
            Error::BurnchainPeerBroken => "Remote burnchain peer has misbehaved".to_string(),
            Error::FSError(e) => e.to_string(),
            Error::OpError(e) => e.0.clone(),
            Error::TrySyncAgain => "Try synchronizing again".to_string(),
            Error::UnknownBlock(block) => "Unknown burnchain block ".to_string().concat(
                block.to_hex().as_str(),
            ),
            Error::NonCanonicalPoxId(parent, child) => parent.to_string().concat(
                " is not a descendant of the canonical parent PoXId: ",
            ).concat(child.to_string().as_str()),
            Error::CoordinatorClosed => "ChainsCoordinator channel hung up".to_string(),
        }
    }

    /// The error that lies behind this one, if there is one.
    pub open spec fn underlying(&self) -> Option<Cause<'_>> {
        match self {
            Error::Bitcoin(e) => Some(Cause::Bitcoin(e)),
            Error::DBError(e) => Some(Cause::DB(e)),
            Error::DownloadError(e) => Some(Cause::Bitcoin(e)),
            Error::FSError(e) => Some(Cause::FS(e)),
            Error::OpError(e) => Some(Cause::Op(e)),
            _ => None,
        }
    }

    /// The error that lies behind this one, if there is one.
    pub fn cause(&self) -> (cause: Option<Cause<'_>>)
        ensures
            cause == self.underlying(),
    {
        match self {
            Error::UnsupportedBurnchain => None,
            Error::Bitcoin(e) => Some(Cause::Bitcoin(e)),
            Error::DBError(e) => Some(Cause::DB(e)),
            Error::DownloadError(e) => Some(Cause::Bitcoin(e)),
            Error::ParseError => None,
            Error::MissingHeaders => None,
            Error::MissingParentBlock => None,
            Error::ThreadChannelError => None,
            Error::BurnchainPeerBroken => None,
            Error::FSError(e) => Some(Cause::FS(e)),
            Error::OpError(e) => Some(Cause::Op(e)),
            Error::TrySyncAgain => None,
            Error::UnknownBlock(_) => None,
            Error::NonCanonicalPoxId(_, _) => None,
            Error::CoordinatorClosed => None,
        }
    }
}

impl From<DBError> for Error {
    fn from(e: DBError) -> (error: Error) {
        Error::DBError(e)
    }
}

impl vstd::std_specs::convert::FromSpecImpl<DBError> for Error {
    open spec fn obeys_from_spec() -> bool {
        true
    }

    open spec fn from_spec(e: DBError) -> Error {
        Error::DBError(e)
    }
}

impl From<rusqlite::Error> for Error {
    fn from(e: rusqlite::Error) -> (error: Error) {
        Error::DBError(DBError::SqliteError(e))
    }
}

impl vstd::std_specs::convert::FromSpecImpl<rusqlite::Error> for Error {
    open spec fn obeys_from_spec() -> bool {
        true
    }

    open spec fn from_spec(e: rusqlite::Error) -> Error {
        Error::DBError(DBError::SqliteError(e))
    }
}

impl From<BitcoinError> for Error {
    fn from(e: BitcoinError) -> (error: Error) {
        Error::Bitcoin(e)
    }
}

impl vstd::std_specs::convert::FromSpecImpl<BitcoinError> for Error {
    open spec fn obeys_from_spec() -> bool {
        true
    }

    open spec fn from_spec(e: BitcoinError) -> Error {
        Error::Bitcoin(e)
    }
}

} // verus!
