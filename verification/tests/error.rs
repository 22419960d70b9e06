use burnchains::error::{BitcoinError, Cause, DBError, OpError};
use burnchains::pox_id::PoxId;
use burnchains::{BurnchainHeaderHash, Error};

fn io_error() -> std::io::Error {
    std::io::Error::new(std::io::ErrorKind::Other, "disk on fire")
}

#[test]
fn fixed_texts() {
    assert_eq!(Error::UnsupportedBurnchain.to_string(), "Unsupported burnchain");
    assert_eq!(Error::ParseError.to_string(), "Parse error");
    assert_eq!(Error::MissingHeaders.to_string(), "Missing block headers");
    assert_eq!(Error::MissingParentBlock.to_string(), "Missing parent block");
    assert_eq!(Error::ThreadChannelError.to_string(), "Error in thread channel");
    assert_eq!(
        Error::BurnchainPeerBroken.to_string(),
        "Remote burnchain peer has misbehaved"
    );
    assert_eq!(Error::TrySyncAgain.to_string(), "Try synchronizing again");
    assert_eq!(
        Error::CoordinatorClosed.to_string(),
        "ChainsCoordinator channel hung up"
    );
}

#[test]
fn texts_with_values() {
    assert_eq!(
        Error::UnknownBlock(BurnchainHeaderHash([0xab; 32])).to_string(),
        format!("Unknown burnchain block {}", "ab".repeat(32))
    );
    let parent = PoxId::new(vec![true, false, true]);
    let child = PoxId::new(vec![true, true]);
    assert_eq!(parent.to_string(), "101");
    assert_eq!(PoxId::new(vec![]).to_string(), "");
    assert_eq!(
        Error::NonCanonicalPoxId(parent, child).to_string(),
        "101 is not a descendant of the canonical parent PoXId: 11"
    );
}

#[test]
fn texts_of_causes() {
    let btc = || BitcoinError(format!("peer {} hung up", 3));
    assert_eq!(Error::Bitcoin(btc()).to_string(), "peer 3 hung up");
    assert_eq!(Error::DownloadError(btc()).to_string(), "peer 3 hung up");
    assert_eq!(Error::FSError(io_error()).to_string(), "disk on fire");
    assert_eq!(
        Error::OpError(OpError(format!("bad op"))).to_string(),
        "bad op"
    );
    assert_eq!(
        Error::DBError(DBError::Other(format!("corrupt"))).to_string(),
        "corrupt"
    );
    assert_eq!(
        Error::DBError(DBError::SqliteError(rusqlite::Error::QueryReturnedNoRows)).to_string(),
        rusqlite::Error::QueryReturnedNoRows.to_string()
    );
    assert_eq!(
        Error::DBError(DBError::SqliteError(rusqlite::Error::InvalidColumnIndex(4))).to_string(),
        "Invalid column index: 4"
    );
}

#[test]
fn causes() {
    let btc = BitcoinError(format!("x"));
    assert!(matches!(Error::Bitcoin(btc.clone()).cause(), Some(Cause::Bitcoin(e)) if *e == btc));
    assert!(
        matches!(Error::DownloadError(btc.clone()).cause(), Some(Cause::Bitcoin(e)) if *e == btc)
    );
    assert!(matches!(
        Error::DBError(DBError::Other(format!("y"))).cause(),
        Some(Cause::DB(DBError::Other(_)))
    ));
    assert!(matches!(Error::FSError(io_error()).cause(), Some(Cause::FS(_))));
    let op = OpError(format!("z"));
    assert!(matches!(Error::OpError(op.clone()).cause(), Some(Cause::Op(e)) if *e == op));
    assert!(Error::UnsupportedBurnchain.cause().is_none());
    assert!(Error::ParseError.cause().is_none());
    assert!(Error::MissingHeaders.cause().is_none());
    assert!(Error::MissingParentBlock.cause().is_none());
    assert!(Error::ThreadChannelError.cause().is_none());
    assert!(Error::BurnchainPeerBroken.cause().is_none());
    assert!(Error::TrySyncAgain.cause().is_none());
    assert!(Error::UnknownBlock(BurnchainHeaderHash([0; 32])).cause().is_none());
    assert!(
        Error::NonCanonicalPoxId(PoxId::new(vec![]), PoxId::new(vec![])).cause().is_none()
    );
    assert!(Error::CoordinatorClosed.cause().is_none());
}

#[test]
fn conversions() {
    let from_engine = Error::from(rusqlite::Error::InvalidQuery);
    assert!(matches!(
        from_engine,
        Error::DBError(DBError::SqliteError(rusqlite::Error::InvalidQuery))
    ));
    let from_db = Error::from(DBError::SqliteError(rusqlite::Error::InvalidQuery));
    assert_eq!(from_engine.to_string(), from_db.to_string());
    assert!(matches!(Error::from(BitcoinError(format!("b"))), Error::Bitcoin(_)));
}
