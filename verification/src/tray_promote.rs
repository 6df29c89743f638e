//! The agent's icon in the notification area of Windows 11, which hides new icons.
//!
//! The icon is made visible once. From then on its visibility is the user's: a mark that
//! this was done once outlives updates and installations.

use crate::text;
use vstd::prelude::*;
use vstd::string::*;

verus! {

/// What std makes of a text in lower case.
pub uninterp spec fn lower_case(s: Seq<char>) -> Seq<char>;

/// Calls `str::to_lowercase` of std. The result depends on the text alone, by the tables of
/// Unicode, which are not stated.
#[verifier::external_body]
fn to_lower(s: &str) -> (r: String)
    ensures
        r@ == lower_case(s@),
{
    s.to_lowercase()
}

/// An icon that the system knows.
#[derive(Debug)]
pub struct TrayEntry {
    pub name: String,
    /// The program that the icon belongs to, where it can be read.
    pub path: Option<String>,
    pub promoted: Option<u32>,
}

/// How an entry fits a program.
#[derive(Clone, Copy, Debug, PartialEq, Eq, Structural)]
pub enum Fit {
    No,
    /// The file has the same name; the system may spell the folder differently.
    File,
    Exact,
}

/// How an entry fits a program, whatever the case of the letters.
pub open spec fn fit_of(e: TrayEntry, exe: Seq<char>, file: Seq<char>) -> Fit {
    match e.path {
        None => Fit::No,
        Some(p) => if lower_case(p@) == lower_case(exe) {
            Fit::Exact
        } else if lower_case(file).len() > 0 && lower_case(file).is_suffix_of(lower_case(p@)) {
            Fit::File
        } else {
            Fit::No
        },
    }
}

/// Index of the last entry that fits in a way, or -1.
pub open spec fn last_fit(
    entries: Seq<TrayEntry>,
    exe: Seq<char>,
    file: Seq<char>,
    fit: Fit,
) -> int
    decreases entries.len(),
{
    if entries.len() == 0 {
        -1
    } else if fit_of(entries.last(), exe, file) == fit {
        entries.len() - 1
    } else {
        last_fit(entries.drop_last(), exe, file, fit)
    }
}

/// The entry of a program: an exact fit before one by the name of the file, and the last one
/// of each.
pub open spec fn entry_of(entries: Seq<TrayEntry>, exe: Seq<char>, file: Seq<char>) -> int {
    let exact = last_fit(entries, exe, file, Fit::Exact);
    if exact >= 0 {
        exact
    } else {
        last_fit(entries, exe, file, Fit::File)
    }
}

/// Finds the entry of a program. `file` is the name of its file, empty where it has none.
pub fn find_entry(entries: &Vec<TrayEntry>, exe: &str, file: &str) -> (r: Option<usize>)
    ensures
        ({
            let i = entry_of(entries@, exe@, file@);
            if i >= 0 {
                r matches Some(k) && k == i && k < entries@.len()
            } else {
                r is None
            }
        }),
{
    let exe_lower = to_lower(exe);
    let file_lower = to_lower(file);
    let mut exact: Option<usize> = None;
    let mut by_file: Option<usize> = None;
    let mut i: usize = 0;
    assert(entries@.take(0) =~= Seq::<TrayEntry>::empty());
    while i < entries.len()
        invariant
            i <= entries@.len(),
            exe_lower@ == lower_case(exe@),
            file_lower@ == lower_case(file@),
            match exact {
                Some(k) => k < i && k == last_fit(
                    entries@.take(i as int),
                    exe@,
                    file@,
                    Fit::Exact,
                ),
                None => last_fit(entries@.take(i as int), exe@, file@, Fit::Exact) == -1,
            },
            match by_file {
                Some(k) => k < i && k == last_fit(entries@.take(i as int), exe@, file@, Fit::File),
                None => last_fit(entries@.take(i as int), exe@, file@, Fit::File) == -1,
            },
        decreases entries@.len() - i,
    {
        proof {
            assert(entries@.take(i + 1).drop_last() =~= entries@.take(i as int));
            assert(entries@.take(i + 1).last() == entries@[i as int]);
        }
        match &entries[i].path {
            Some(p) => {
                let p_lower = to_lower(p.as_str());
                if text::same(p_lower.as_str(), exe_lower.as_str()) {
                    exact = Some(i);
                } else if !file_lower.as_str().is_empty() && text::ends_with(
                    p_lower.as_str(),
                    file_lower.as_str(),
                ) {
                    by_file = Some(i);
                }
            },
            None => {},
        }
        i = i + 1;
    }
    assert(entries@.take(i as int) =~= entries@);
    match exact {
        Some(k) => Some(k),
        None => by_file,
    }
}

/// What is to be done about the icon.
#[derive(Clone, Copy, Debug, PartialEq, Eq, Structural)]
pub enum TrayPlan {
    /// The system does not know the icon yet.
    EntryNotFoundYet,
    /// It was made visible once: hands off.
    AlreadyDecided,
    /// Make the entry visible, and read it back.
    Promote { entry: usize },
}

/// The plan for an icon.
pub open spec fn plan_of(
    entries: Seq<TrayEntry>,
    exe: Seq<char>,
    file: Seq<char>,
    marked: bool,
) -> TrayPlan {
    let i = entry_of(entries, exe, file);
    if i < 0 {
        TrayPlan::EntryNotFoundYet
    } else if marked {
        TrayPlan::AlreadyDecided
    } else {
        TrayPlan::Promote { entry: i as usize }
    }
}

/// Plans for the icon. `marked` where it was made visible once.
pub fn plan(entries: &Vec<TrayEntry>, exe: &str, file: &str, marked: bool) -> (r: TrayPlan)
    ensures
        r == plan_of(entries@, exe@, file@, marked),
{
    match find_entry(entries, exe, file) {
        None => TrayPlan::EntryNotFoundYet,
        Some(entry) => if marked {
            TrayPlan::AlreadyDecided
        } else {
            TrayPlan::Promote { entry }
        },
    }
}

/// What became of an attempt.
#[derive(Clone, Copy, Debug, PartialEq, Eq, Structural)]
pub enum Outcome {
    Promoted,
    AlreadyDecided,
    EntryNotFoundYet,
    /// The system keeps no such settings.
    Inaccessible,
}

/// Takes what was read back. The mark is set only if the icon became visible, so that a
/// write that had no effect is tried again.
pub fn read_back(value: Option<u32>) -> (r: (bool, Outcome))
    ensures
        r == if value == Some(1u32) {
            (true, Outcome::Promoted)
        } else {
            (false, Outcome::EntryNotFoundYet)
        },
{
    match value {
        Some(1) => (true, Outcome::Promoted),
        _ => (false, Outcome::EntryNotFoundYet),
    }
}

/// Attempts to make the icon visible: the system learns of it some time after it was made.
#[derive(Clone, Copy, Debug, PartialEq, Eq, Structural)]
pub struct PromotionRun {
    pub attempt: usize,
}

/// The wait before an attempt, in seconds.
pub open spec fn promotion_delay(attempt: int) -> u64 {
    if attempt == 0 {
        2
    } else if attempt == 1 {
        3
    } else {
        5
    }
}

/// Most attempts.
pub const PROMOTION_ATTEMPTS: usize = 3;

impl PromotionRun {
    pub fn new() -> (r: PromotionRun)
        ensures
            r.attempt == 0,
    {
        PromotionRun { attempt: 0 }
    }

    /// The wait before the next attempt, in seconds; nothing after the last.
    pub fn next_delay(&self) -> (r: Option<u64>)
        ensures
            r == if self.attempt < PROMOTION_ATTEMPTS {
                Some(promotion_delay(self.attempt as int))
            } else {
                None
            },
            r is Some <==> self.attempt < 3,
    {
        if self.attempt == 0 {
            Some(2)
        } else if self.attempt == 1 {
            Some(3)
        } else if self.attempt == 2 {
            Some(5)
        } else {
            None
        }
    }

    /// Takes what became of an attempt. Says whether there is to be another.
    pub fn attempted(&mut self, outcome: Outcome) -> (r: bool)
        requires
            old(self).attempt < PROMOTION_ATTEMPTS,
        ensures
            final(self).attempt == old(self).attempt + 1,
            r == (outcome == Outcome::EntryNotFoundYet && final(self).attempt
                < PROMOTION_ATTEMPTS),
            r <==> outcome == Outcome::EntryNotFoundYet && old(self).attempt < 2,
    {
        self.attempt = self.attempt + 1;
        outcome == Outcome::EntryNotFoundYet && self.attempt < PROMOTION_ATTEMPTS
    }
}

/// An icon that was made visible once is never touched again, whatever the user has made of
/// it since.
pub proof fn a_marked_icon_is_left_alone(
    entries: Seq<TrayEntry>,
    exe: Seq<char>,
    file: Seq<char>,
)
    ensures
        !(plan_of(entries, exe, file, true) is Promote),
{
}

/// An entry fits a program if its path is the program's, whatever the case of the letters, or
/// else if it ends with the name of the program's file. An entry without a path fits none.
pub proof fn an_entry_fits_by_its_path(e: TrayEntry, exe: Seq<char>, file: Seq<char>)
    ensures
        e.path is None ==> fit_of(e, exe, file) == Fit::No,
        e.path matches Some(p) ==> {
            let same = lower_case(p@) == lower_case(exe);
            let ends = lower_case(file).len() > 0 && lower_case(file).is_suffix_of(
                lower_case(p@),
            );
            &&& same <==> fit_of(e, exe, file) == Fit::Exact
            &&& !same && ends <==> fit_of(e, exe, file) == Fit::File
            &&& !same && !ends <==> fit_of(e, exe, file) == Fit::No
        },
{
}

/// Of several entries that fit in one way the last one is meant.
pub proof fn the_last_entry_that_fits_is_meant(
    entries: Seq<TrayEntry>,
    exe: Seq<char>,
    file: Seq<char>,
    fit: Fit,
    i: int,
)
    requires
        -1 <= i < entries.len(),
        i >= 0 ==> fit_of(entries[i], exe, file) == fit,
        forall|k: int| i < k < entries.len() ==> fit_of(#[trigger] entries[k], exe, file) != fit,
    ensures
        last_fit(entries, exe, file, fit) == i,
    decreases entries.len(),
{
    if entries.len() > 0 && i < entries.len() - 1 {
        assert(fit_of(entries[entries.len() - 1], exe, file) != fit);
        assert forall|k: int| i < k < entries.len() - 1 implies fit_of(
            #[trigger] entries.drop_last()[k],
            exe,
            file,
        ) != fit by {
            assert(fit_of(entries[k], exe, file) != fit);
        }
        the_last_entry_that_fits_is_meant(entries.drop_last(), exe, file, fit, i);
    }
}

/// An entry of the very program comes before one of a file of its name. The one that is meant
/// is made visible, unless it was before; as long as there is none the agent tries again,
/// after two, three and then five seconds.
pub proof fn the_very_program_comes_first(
    entries: Seq<TrayEntry>,
    exe: Seq<char>,
    file: Seq<char>,
    marked: bool,
    attempt: int,
)
    requires
        entries.len() <= usize::MAX,
    ensures
        ({
            let exact = last_fit(entries, exe, file, Fit::Exact);
            let by_name = last_fit(entries, exe, file, Fit::File);
            let meant = entry_of(entries, exe, file);
            &&& exact >= 0 ==> meant == exact
            &&& exact < 0 ==> meant == by_name
            &&& meant < 0 ==> plan_of(entries, exe, file, marked) == TrayPlan::EntryNotFoundYet
            &&& meant >= 0 && marked ==> plan_of(entries, exe, file, marked)
                == TrayPlan::AlreadyDecided
            &&& meant >= 0 && !marked ==> plan_of(entries, exe, file, marked) == (
            TrayPlan::Promote { entry: meant as usize })
        }),
        promotion_delay(0) == 2,
        promotion_delay(1) == 3,
        attempt >= 2 ==> promotion_delay(attempt) == 5,
{
}

} // verus!
