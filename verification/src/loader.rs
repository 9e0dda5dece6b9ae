//! The search for the OpenXR loader library.

use vstd::prelude::*;
use vstd::string::*;

use crate::text::join_texts;

verus! {

use crate::text::{joined, texts};

/// The operating systems that name the loader differently.
#[derive(Clone, Copy, Debug, PartialEq, Eq, Structural)]
pub enum TargetOs {
    Windows,
    MacOs,
    Other,
}

/// The file names to try, in order.
///
/// Most Linux distributions ship the unversioned name in the development package
/// only, so the name with the version is tried as well.
pub open spec fn candidates(os: TargetOs) -> Seq<Seq<char>> {
    match os {
        TargetOs::Windows => seq!["openxr_loader.dll"@],
        TargetOs::MacOs => seq!["libopenxr_loader.dylib"@],
        TargetOs::Other => seq!["libopenxr_loader.so"@, "libopenxr_loader.so.1"@],
    }
}

/// What came of trying a file name.
#[derive(Debug)]
pub enum LoadOutcome {
    /// Nothing was tried yet.
    Start,
    /// The loader is loaded.
    Loaded,
    /// The file could not be loaded, and why.
    Failed(String),
}

/// What to do next in the search.
#[derive(Debug)]
pub enum LoadAction {
    /// Try to load this file.
    Try(String),
    /// The search is over.
    Done,
    /// No name is left; this is what to report.
    GiveUp(String),
}

/// A search under way.
#[derive(Debug)]
pub struct LoaderSearch {
    pub os: TargetOs,
    /// What is known of each file that could not be loaded, in order.
    pub failures: Vec<String>,
}

/// How one failure is noted down.
pub open spec fn failure_note(candidate: Seq<char>, err: Seq<char>) -> Seq<char> {
    candidate + ": "@ + err
}

/// The notes once the next file name failed with `err`.
pub open spec fn noted(os: TargetOs, failures: Seq<Seq<char>>, err: Seq<char>) -> Seq<Seq<char>> {
    if failures.len() < candidates(os).len() {
        failures.push(failure_note(candidates(os)[failures.len() as int], err))
    } else {
        failures
    }
}

/// What is reported when nothing could be loaded.
pub open spec fn give_up_text(failures: Seq<Seq<char>>) -> Seq<char> {
    "could not load the OpenXR loader (tried "@ + joined(failures, "; "@) + ")"@
}

/// Whether `action` is what to do with these failures behind: try the next name,
/// or give up after the last.
pub open spec fn is_next(os: TargetOs, failures: Seq<Seq<char>>, action: LoadAction) -> bool {
    if failures.len() < candidates(os).len() {
        action matches LoadAction::Try(name) && name@ == candidates(os)[failures.len() as int]
    } else {
        action matches LoadAction::GiveUp(message) && message@ == give_up_text(failures)
    }
}

fn candidate(os: TargetOs, i: usize) -> (name: Option<&'static str>)
    ensures
        name is Some <==> i < candidates(os).len(),
        name matches Some(n) ==> n@ == candidates(os)[i as int],
{
    match os {
        TargetOs::Windows => if i == 0 {
            Some("openxr_loader.dll")
        } else {
            None
        },
        TargetOs::MacOs => if i == 0 {
            Some("libopenxr_loader.dylib")
        } else {
            None
        },
        TargetOs::Other => if i == 0 {
            Some("libopenxr_loader.so")
        } else if i == 1 {
            Some("libopenxr_loader.so.1")
        } else {
            None
        },
    }
}

impl LoaderSearch {
    /// A search in which nothing was tried yet.
    pub fn new(os: TargetOs) -> (search: LoaderSearch)
        ensures
            search.os == os,
            search.failures@.len() == 0,
    {
        LoaderSearch { os, failures: Vec::new() }
    }

    fn next(&self) -> (action: LoadAction)
        ensures
            is_next(self.os, texts(self.failures@), action),
    {
        match candidate(self.os, self.failures.len()) {
            Some(name) => LoadAction::Try(name.to_owned()),
            None => {
                let mut message = "could not load the OpenXR loader (tried ".to_owned();
                message.append(join_texts(&self.failures, "; ").as_str());
                message.append(")");
                LoadAction::GiveUp(message)
            },
        }
    }

    /// Takes what came of the last attempt and says what to do next.
    pub fn step(&mut self, outcome: LoadOutcome) -> (action: LoadAction)
        ensures
            final(self).os == old(self).os,
            outcome is Start ==> final(self).failures == old(self).failures && is_next(
                old(self).os,
                texts(old(self).failures@),
                action,
            ),
            outcome is Loaded ==> final(self).failures == old(self).failures && action is Done,
            outcome matches LoadOutcome::Failed(err) ==> {
                &&& texts(final(self).failures@) == noted(
                    old(self).os,
                    texts(old(self).failures@),
                    err@,
                )
                &&& is_next(old(self).os, texts(final(self).failures@), action)
            },
    {
        match outcome {
            LoadOutcome::Start => self.next(),
            LoadOutcome::Loaded => LoadAction::Done,
            LoadOutcome::Failed(err) => {
                if let Some(name) = candidate(self.os, self.failures.len()) {
                    let ghost before = texts(self.failures@);
                    let mut note = name.to_owned();
                    note.append(": ");
                    note.append(err.as_str());
                    self.failures.push(note);
                    assert(texts(self.failures@) =~= before.push(failure_note(name@, err@)));
                }
                self.next()
            },
        }
    }
}

/// The notes after attempts that failed with `errs`, from the first name on.
pub open spec fn noted_all(os: TargetOs, errs: Seq<Seq<char>>) -> Seq<Seq<char>>
    decreases errs.len(),
{
    if errs.len() == 0 {
        Seq::empty()
    } else {
        noted(os, noted_all(os, errs.drop_last()), errs.last())
    }
}

/// The search tries every file name once, in order, and gives up after the last;
/// what it then reports names each of them with its own failure.
pub proof fn search_tries_every_candidate_once(os: TargetOs, errs: Seq<Seq<char>>, action: LoadAction)
    requires
        errs.len() <= candidates(os).len(),
        is_next(os, noted_all(os, errs), action),
    ensures
        noted_all(os, errs) == Seq::new(
            errs.len(),
            |i: int| failure_note(candidates(os)[i], errs[i]),
        ),
        errs.len() < candidates(os).len() ==> (action matches LoadAction::Try(name) && name@
            == candidates(os)[errs.len() as int]),
        errs.len() == candidates(os).len() ==> (action matches LoadAction::GiveUp(message)
            && message@ == give_up_text(
            Seq::new(errs.len(), |i: int| failure_note(candidates(os)[i], errs[i])),
        )),
{
    noted_all_is(os, errs);
}

proof fn noted_all_is(os: TargetOs, errs: Seq<Seq<char>>)
    requires
        errs.len() <= candidates(os).len(),
    ensures
        noted_all(os, errs) =~= Seq::new(
            errs.len(),
            |i: int| failure_note(candidates(os)[i], errs[i]),
        ),
    decreases errs.len(),
{
    if errs.len() > 0 {
        noted_all_is(os, errs.drop_last());
    }
}

} // verus!
