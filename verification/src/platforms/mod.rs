//! The compilation targets and the builders of the supported hosts.

use vstd::prelude::*;
use vstd::string::*;

pub mod aarch64_macos;
pub mod shared;

verus! {

/// A target that the built toolchain generates code for.
#[derive(Debug, Clone, Copy, PartialEq, Eq, Hash, Structural)]
pub enum Platform {
    X86,
    AArch64,
}

impl Platform {
    /// The name of the LLVM backend for this target.
    pub open spec fn name_text(self) -> Seq<char> {
        match self {
            Platform::X86 => "X86"@,
            Platform::AArch64 => "AArch64"@,
        }
    }

    /// The name of the LLVM backend for this target.
    pub fn name(&self) -> (name: &'static str)
        ensures
            name@ == self.name_text(),
    {
        match self {
            Platform::X86 => "X86",
            Platform::AArch64 => "AArch64",
        }
    }

    /// The target whose backend has the given name, if there is one.
    pub fn from_name(name: &str) -> (found: Option<Platform>)
        ensures
            match found {
                Some(platform) => platform.name_text() == name@,
                None => forall|platform: Platform| platform.name_text() != name@,
            },
    {
        let wanted = String::from_str(name);
        if wanted == String::from_str("X86") {
            Some(Platform::X86)
        } else if wanted == String::from_str("AArch64") {
            Some(Platform::AArch64)
        } else {
            None
        }
    }
}

/// The backend names of `platforms`, in the same order.
pub open spec fn names_of(platforms: Seq<Platform>) -> Seq<Seq<char>> {
    Seq::new(platforms.len(), |i: int| platforms[i].name_text())
}

/// The items of `platforms` without repetitions, each where it first occurs.
pub open spec fn distinct(platforms: Seq<Platform>) -> Seq<Platform>
    decreases platforms.len(),
{
    if platforms.len() == 0 {
        Seq::empty()
    } else {
        let before = distinct(platforms.drop_last());
        if before.contains(platforms.last()) {
            before
        } else {
            before.push(platforms.last())
        }
    }
}

/// A set of targets. It is walked in the order in which its members were added.
#[derive(Debug, Clone, PartialEq, Eq)]
pub struct TargetSet {
    members: Vec<Platform>,
}

impl View for TargetSet {
    type V = Seq<Platform>;

    closed spec fn view(&self) -> Seq<Platform> {
        self.members@
    }
}

impl TargetSet {
    /// No member occurs twice.
    pub open spec fn wf(&self) -> bool {
        self@.no_duplicates()
    }

    /// The empty set.
    pub fn new() -> (set: TargetSet)
        ensures
            set.wf(),
            set@ == Seq::<Platform>::empty(),
    {
        TargetSet { members: Vec::new() }
    }

    /// The number of members.
    pub fn len(&self) -> (count: usize)
        ensures
            count == self@.len(),
    {
        self.members.len()
    }

    /// Whether the set has no member.
    pub fn is_empty(&self) -> (empty: bool)
        ensures
            empty == (self@.len() == 0),
    {
        self.members.len() == 0
    }

    /// Whether `platform` is a member.
    pub fn contains(&self, platform: Platform) -> (found: bool)
        ensures
            found == self@.contains(platform),
    {
        let mut i: usize = 0;
        while i < self.members.len()
            invariant
                0 <= i <= self.members.len(),
                forall|j: int| 0 <= j < i ==> self.members@[j] != platform,
            decreases self.members.len() - i,
        {
            if self.members[i] == platform {
                return true;
            }
            i += 1;
        }
        false
    }

    /// Adds `platform` unless it is a member already; tells whether it was added.
    pub fn insert(&mut self, platform: Platform) -> (added: bool)
        requires
            old(self).wf(),
        ensures
            final(self).wf(),
            added == !old(self)@.contains(platform),
            final(self)@ == if added {
                old(self)@.push(platform)
            } else {
                old(self)@
            },
    {
        if self.contains(platform) {
            false
        } else {
            self.members.push(platform);
            true
        }
    }

    /// The set of the items of `platforms`, each kept where it first occurs.
    pub fn from_platforms(platforms: &Vec<Platform>) -> (set: TargetSet)
        ensures
            set.wf(),
            set@ == distinct(platforms@),
            platforms.len() > 0 ==> set@.len() > 0,
            forall|platform: Platform| set@.contains(platform) == platforms@.contains(platform),
    {
        let mut set = TargetSet::new();
        let mut i: usize = 0;
        while i < platforms.len()
            invariant
                0 <= i <= platforms.len(),
                set.wf(),
                set@ == distinct(platforms@.take(i as int)),
            decreases platforms.len() - i,
        {
            set.insert(platforms[i]);
            i += 1;
            proof {
                let taken = platforms@.take(i as int);
                assert(taken.drop_last() == platforms@.take(i - 1));
                assert(taken.last() == platforms@[i - 1]);
            }
        }
        assert(platforms@.take(i as int) == platforms@);
        proof {
            lemma_distinct_members(platforms@);
        }
        set
    }

    /// The backend names of the members, in the order in which the set is walked.
    pub fn names(&self) -> (names: Vec<String>)
        ensures
            names.deep_view() == names_of(self@),
    {
        let mut names: Vec<String> = Vec::new();
        let mut i: usize = 0;
        while i < self.members.len()
            invariant
                0 <= i <= self.members.len(),
                names.deep_view() == names_of(self@.take(i as int)),
            decreases self.members.len() - i,
        {
            let ghost before = names.deep_view();
            names.push(String::from_str(self.members[i].name()));
            i += 1;
            assert(names.deep_view() =~= before.push(self.members@[i - 1].name_text()));
            assert(names_of(self@.take(i as int)) =~= names_of(self@.take(i - 1)).push(
                self.members@[i - 1].name_text(),
            ));
        }
        assert(self@.take(i as int) == self@);
        names
    }
}

/// Removing repetitions keeps the members: a target is among the distinct items
/// exactly when it is among the given ones, and none of them occurs twice.
pub proof fn lemma_distinct_members(platforms: Seq<Platform>)
    ensures
        distinct(platforms).no_duplicates(),
        distinct(platforms).len() <= platforms.len(),
        platforms.len() > 0 ==> distinct(platforms).len() > 0,
        forall|platform: Platform|
            distinct(platforms).contains(platform) == platforms.contains(platform),
    decreases platforms.len(),
{
    if platforms.len() > 0 {
        let init = platforms.drop_last();
        let last = platforms.last();
        let before = distinct(init);
        lemma_distinct_members(init);
        assert forall|platform: Platform|
            distinct(platforms).contains(platform) == platforms.contains(platform) by {
            if platforms.contains(platform) {
                let j = choose|j: int| 0 <= j < platforms.len() && platforms[j] == platform;
                if j < init.len() {
                    assert(init[j] == platform);
                    assert(init.contains(platform));
                    assert(before.contains(platform));
                    let k = choose|k: int| 0 <= k < before.len() && before[k] == platform;
                    assert(distinct(platforms)[k] == platform);
                } else if !before.contains(last) {
                    assert(distinct(platforms)[before.len() as int] == platform);
                }
            }
            if distinct(platforms).contains(platform) {
                let k = choose|k: int|
                    0 <= k < distinct(platforms).len() && distinct(platforms)[k] == platform;
                if k < before.len() {
                    assert(before[k] == platform);
                    assert(before.contains(platform));
                    assert(init.contains(platform));
                    let j = choose|j: int| 0 <= j < init.len() && init[j] == platform;
                    assert(platforms[j] == platform);
                } else {
                    assert(platforms[platforms.len() - 1] == platform);
                }
            }
        }
    }
}

} // verus!
