//! Create, read, update and delete for each of the six kinds of record.
//!
//! Every controller offers the same operations, and each of them hands back
//! an [`Operation`](crate::operation::Operation) for the caller to run:
//!
//! - `create` looks up the parents that the new item points to and inserts
//!   it only if all of them are there;
//! - `read` and `check` look the row up by its primary key;
//! - `update` replaces the row without looking at its references;
//! - `delete` first clears the rows that point to the row, then removes it.

//!
//! The module also holds what a pool of connections to the store is set up
//! with: its size, and the settings that every connection gets when it is
//! taken from the pool.

use crate::digits::{decimal, decimal_text};
use vstd::prelude::*;

pub mod ingredient;
pub mod ingredient_macro;
pub mod meal;
pub mod meal_ingredient;
pub mod recipe;
pub mod recipe_ingredient;

verus! {

/// The largest number of connections that the pool keeps open at once.
pub const MAX_POOL_SIZE: u32 = 16;

/// How long a connection waits for a lock before it gives up, in
/// milliseconds.
pub const BUSY_TIMEOUT_MILLIS: u64 = 30000;

/// The settings of a connection.
#[derive(Clone, Copy, Debug, PartialEq, Eq, Structural)]
pub struct ConnectionOptions {
    /// Whether the store keeps a write-ahead log.
    pub enable_wal: bool,
    /// Whether the store is told to mind foreign keys. The integrity rules
    /// of this crate do not rely on it.
    pub enable_foreign_keys: bool,
    /// How long a statement waits for a lock, in milliseconds; `None` lets
    /// it fail at once.
    pub busy_timeout: Option<u64>,
}

/// What a pool of connections is built with.
#[derive(Clone, Copy, Debug, PartialEq, Eq, Structural)]
pub struct PoolSettings {
    pub max_size: u32,
    pub options: ConnectionOptions,
}

/// The statements that switch the write-ahead log on.
pub open spec fn wal_pragma() -> Seq<char> {
    "PRAGMA journal_mode = WAL; PRAGMA synchronous = NORMAL;"@
}

/// The statement that switches foreign keys on.
pub open spec fn foreign_keys_pragma() -> Seq<char> {
    "PRAGMA foreign_keys = ON;"@
}

/// The statement that sets the time to wait for a lock.
pub open spec fn busy_timeout_pragma(millis: u64) -> Seq<char> {
    "PRAGMA busy_timeout = "@ + decimal(millis as nat)
}

/// The statements that set a connection up, in the order in which they are
/// run: write-ahead log, foreign keys, busy timeout, each only where the
/// options ask for it.
pub open spec fn pragmas_of(options: ConnectionOptions) -> Seq<Seq<char>> {
    let wal = if options.enable_wal {
        seq![wal_pragma()]
    } else {
        seq![]
    };
    let foreign_keys = if options.enable_foreign_keys {
        seq![foreign_keys_pragma()]
    } else {
        seq![]
    };
    let busy_timeout = match options.busy_timeout {
        Some(millis) => seq![busy_timeout_pragma(millis)],
        None => seq![],
    };
    wal + foreign_keys + busy_timeout
}

/// The texts of a list of strings.
pub open spec fn texts(list: Seq<String>) -> Seq<Seq<char>> {
    Seq::new(list.len(), |i: int| list[i]@)
}

impl ConnectionOptions {
    /// The statements to run on a connection when it is taken from the
    /// pool, in order. The caller runs them one by one and gives the
    /// connection up at the first that fails.
    pub fn pragmas(&self) -> (statements: Vec<String>)
        ensures
            texts(statements@) == pragmas_of(*self),
    {
        let mut statements: Vec<String> = Vec::new();
        if self.enable_wal {
            statements.push("PRAGMA journal_mode = WAL; PRAGMA synchronous = NORMAL;".to_owned());
        }
        if self.enable_foreign_keys {
            statements.push("PRAGMA foreign_keys = ON;".to_owned());
        }
        if let Some(millis) = self.busy_timeout {
            let mut text = "PRAGMA busy_timeout = ".to_owned();
            let number = decimal_text(millis);
            text.append(number.as_str());
            statements.push(text);
        }
        assert(texts(statements@) =~= pragmas_of(*self));
        statements
    }
}

/// The settings that the pool of this store is built with: up to 16
/// connections, each with a write-ahead log, foreign keys switched on, and
/// half a minute to wait for a lock.
pub fn pool_settings() -> (settings: PoolSettings)
    ensures
        settings == (PoolSettings {
            max_size: 16,
            options: ConnectionOptions {
                enable_wal: true,
                enable_foreign_keys: true,
                busy_timeout: Some(30000),
            },
        }),
{
    PoolSettings {
        max_size: MAX_POOL_SIZE,
        options: ConnectionOptions {
            enable_wal: true,
            enable_foreign_keys: true,
            busy_timeout: Some(BUSY_TIMEOUT_MILLIS),
        },
    }
}

} // verus!
