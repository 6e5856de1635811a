//! What a run needs from the machine it runs on, and nothing it decides.
//!
//! The library never touches a stream, a file, the environment, the network, or the clock
//! itself. [`crate::run`] is handed a [`Host`] that does those things. What the library
//! states of a host is only this: the environment is a fixed table that reading a variable
//! reports and that nothing else changes, and each HTTP attempt counts as one. What a file,
//! the store, or a server holds is left open, and the library's logic is verified for every
//! answer a host can give there. [`MemoryHost`] is a host held in memory that keeps the
//! contract, checked here.

use vstd::prelude::*;

use crate::client::{Exchange, HttpRequest};
use crate::config::Secret;
use crate::error::DecideError;
use crate::text::{owned, same};

verus! {

/// The outside work a run asks for.
pub trait Host: Secret {
    /// The value the environment holds under `name`, if it holds one.
    closed spec fn env(&self, name: Seq<char>) -> Option<Seq<char>> {
        None
    }

    /// How many HTTP attempts this host has made.
    closed spec fn attempts(&self) -> nat {
        0
    }

    /// Read a file as UTF-8 text, or give the reason it could not be read.
    fn read_file(&mut self, path: &str) -> (r: Result<String, String>)
        ensures
            forall|n: Seq<char>| #[trigger] final(self).env(n) == old(self).env(n),
            final(self).attempts() == old(self).attempts(),
    ;

    /// Make one HTTP attempt and say what came back.
    fn send(&mut self, request: &HttpRequest) -> (r: Exchange)
        ensures
            forall|n: Seq<char>| #[trigger] final(self).env(n) == old(self).env(n),
            final(self).attempts() == old(self).attempts() + 1,
    ;

    /// Wait this many milliseconds before the next attempt.
    fn sleep_ms(&mut self, ms: u64)
        ensures
            forall|n: Seq<char>| #[trigger] final(self).env(n) == old(self).env(n),
            final(self).attempts() == old(self).attempts(),
    ;

    /// The value of an environment variable, if it is set.
    fn env_var(&mut self, name: &str) -> (r: Option<String>)
        ensures
            match r {
                Some(v) => old(self).env(name@) == Some(v@),
                None => old(self).env(name@) is None,
            },
            forall|n: Seq<char>| #[trigger] final(self).env(n) == old(self).env(n),
            final(self).attempts() == old(self).attempts(),
    ;

    /// Read the credential store at `path`: its text, nothing when there is no such file,
    /// or the reason it could not be read.
    fn read_store(&mut self, path: &str) -> (r: Result<Option<String>, String>)
        ensures
            forall|n: Seq<char>| #[trigger] final(self).env(n) == old(self).env(n),
            final(self).attempts() == old(self).attempts(),
    ;

    /// Write `contents` to the credential store at `path`, creating its directory, with the
    /// file readable only by its owner, or give the reason it could not be written.
    fn write_store(&mut self, path: &str, contents: &str) -> (r: Result<(), String>)
        ensures
            forall|n: Seq<char>| #[trigger] final(self).env(n) == old(self).env(n),
            final(self).attempts() == old(self).attempts(),
    ;

    /// Remove the credential store at `path`, saying whether there was one, or give the
    /// reason it could not be removed.
    fn remove_store(&mut self, path: &str) -> (r: Result<bool, String>)
        ensures
            forall|n: Seq<char>| #[trigger] final(self).env(n) == old(self).env(n),
            final(self).attempts() == old(self).attempts(),
    ;
}

/// Whether two states of a host read the same environment.
pub open spec fn same_env<H: Host>(a: H, b: H) -> bool {
    forall|n: Seq<char>| #[trigger] a.env(n) == b.env(n)
}

/// The value the first entry named `name` holds.
pub open spec fn entry_value(entries: Seq<(String, String)>, name: Seq<char>) -> Option<Seq<char>>
    decreases entries.len(),
{
    if entries.len() == 0 {
        None
    } else if entries[0].0@ == name {
        Some(entries[0].1@)
    } else {
        entry_value(entries.drop_first(), name)
    }
}

/// The value the first entry named `name` holds, found by walking the entries.
fn find_entry(entries: &Vec<(String, String)>, name: &str) -> (r: Option<String>)
    ensures
        match r {
            Some(v) => entry_value(entries@, name@) == Some(v@),
            None => entry_value(entries@, name@) is None,
        },
{
    let mut i: usize = 0;
    assert(entries@.skip(0) =~= entries@);
    while i < entries.len()
        invariant
            i <= entries@.len(),
            entry_value(entries@, name@) == entry_value(entries@.skip(i as int), name@),
        decreases entries@.len() - i,
    {
        assert(entries@.skip(i as int).drop_first() =~= entries@.skip(i + 1));
        if same(entries[i].0.as_str(), name) {
            return Some(entries[i].1.clone());
        }
        i = i + 1;
    }
    None
}

/// A host held in memory: an environment, files, a credential store, and a script of
/// replies, answered in order. It waits for nothing, and it makes no attempt it is not
/// scripted to answer: past the script, every attempt fails to connect.
pub struct MemoryHost {
    env: Vec<(String, String)>,
    files: Vec<(String, String)>,
    store: Vec<(String, String)>,
    replies: Vec<Exchange>,
    secret: Option<String>,
    sent: Ghost<nat>,
}

impl MemoryHost {
    /// A host with this environment, these files, an empty store, these replies, and the
    /// secret a terminal would be typed.
    pub fn new(
        env: Vec<(String, String)>,
        files: Vec<(String, String)>,
        replies: Vec<Exchange>,
        secret: Option<String>,
    ) -> (r: Self)
        ensures
            forall|n: Seq<char>| #[trigger] r.env(n) == entry_value(env@, n),
            r.attempts() == 0,
    {
        MemoryHost { env, files, store: Vec::new(), replies, secret, sent: Ghost(0) }
    }
}

impl Secret for MemoryHost {
    fn read_secret(&mut self) -> Result<String, DecideError> {
        match &self.secret {
            Some(secret) => Ok(secret.clone()),
            None => Err(DecideError::TokenUnreadable { reason: owned("no terminal") }),
        }
    }
}

impl Host for MemoryHost {
    closed spec fn env(&self, name: Seq<char>) -> Option<Seq<char>> {
        entry_value(self.env@, name)
    }

    closed spec fn attempts(&self) -> nat {
        self.sent@
    }

    fn read_file(&mut self, path: &str) -> (r: Result<String, String>) {
        match find_entry(&self.files, path) {
            Some(text) => Ok(text),
            None => Err(owned("No such file or directory")),
        }
    }

    fn send(&mut self, request: &HttpRequest) -> (r: Exchange) {
        self.sent = Ghost(self.sent@ + 1);
        if self.replies.len() == 0 {
            Exchange::Failed { reason: owned("connection refused") }
        } else {
            self.replies.remove(0)
        }
    }

    fn sleep_ms(&mut self, ms: u64) {
    }

    fn env_var(&mut self, name: &str) -> (r: Option<String>) {
        find_entry(&self.env, name)
    }

    fn read_store(&mut self, path: &str) -> (r: Result<Option<String>, String>) {
        Ok(find_entry(&self.store, path))
    }

    fn write_store(&mut self, path: &str, contents: &str) -> (r: Result<(), String>) {
        self.store.insert(0, (owned(path), owned(contents)));
        Ok(())
    }

    fn remove_store(&mut self, path: &str) -> (r: Result<bool, String>) {
        let mut kept: Vec<(String, String)> = Vec::new();
        let mut removed = false;
        let mut i: usize = 0;
        while i < self.store.len()
            invariant
                i <= self.store@.len(),
            decreases self.store@.len() - i,
        {
            if same(self.store[i].0.as_str(), path) {
                removed = true;
            } else {
                kept.push((self.store[i].0.clone(), self.store[i].1.clone()));
            }
            i = i + 1;
        }
        self.store = kept;
        Ok(removed)
    }
}

} // verus!
