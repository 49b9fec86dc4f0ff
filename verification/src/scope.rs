//! OAuth scopes and sets of them.
//!
//! A [`Scope`] names one permission that can be granted to a bearer
//! credential.  A [`ScopeSet`] is a set of scopes kept in a canonical sorted
//! order, so that its space-joined string form is unique.  The wildcard
//! [`Scope::All`] subsumes every other scope: a set that holds `All` holds
//! nothing else.

use vstd::prelude::*;
use vstd::string::StrSliceExecFns;
use vstd::string::StringExecFns;

verus! {

/// An OAuth scope for specifying access needed for a user account.
///
/// Scopes add access for specific resources and functionality for a given
/// user account; they do not remove access.  The `All` scope requests full
/// access and is equivalent to including every other scope.
#[derive(Clone, Copy, Debug, PartialEq, Eq, Structural)]
pub enum Scope {
    /// Allow access to all resources for a user.
    All,
    /// Update preferences and account information.
    Account,
    /// Spend reddit gold creddits by giving gold to others.
    Creddits,
    /// Edit or delete comments and submissions.
    Edit,
    /// Select subreddit flair and change link flair.
    Flair,
    /// Access voting history and saved or hidden comments and submissions.
    History,
    /// Access reddit username and signup date.
    Identity,
    /// Manage settings and contributors of live threads.
    LiveManage,
    /// Manage the configuration, sidebar, and CSS of a subreddit.
    ModConfig,
    /// Add or remove approved submitters; ban, unban, mute or unmute users.
    ModContributors,
    /// Manage and assign flair.
    ModFlair,
    /// Access moderation logs.
    ModLog,
    /// Access and manage modmail.
    ModMail,
    /// Invite or remove other moderators.
    ModOthers,
    /// Approve, remove or distinguish content and mark content as NSFW.
    ModPosts,
    /// Change own moderation or contributor status for a subreddit.
    ModSelf,
    /// Access traffic stats.
    ModTraffic,
    /// Change editors and visibility of wiki pages.
    ModWiki,
    /// Access the list of subreddits the user moderates or subscribes to.
    MySubreddits,
    /// Access the inbox and send private messages.
    PrivateMessages,
    /// Access posts and comments by the user.
    Read,
    /// Report content and hide or show individual submissions.
    Report,
    /// Save or unsave comments and submissions.
    Save,
    /// Edit structured styles.
    StructuredStyles,
    /// Submit links and comments.
    Submit,
    /// Manage subreddit subscriptions and friends.
    Subscribe,
    /// Submit or change comment and submission votes.
    Vote,
    /// Edit wiki pages.
    WikiEdit,
    /// Read wiki pages.
    WikiRead,
}

/// The position of a scope in the canonical order, which coincides with the
/// alphabetical order of the scope names (the wildcard `*` sorting first).
pub open spec fn spec_rank(s: Scope) -> u8 {
    match s {
        Scope::All => 0,
        Scope::Account => 1,
        Scope::Creddits => 2,
        Scope::Edit => 3,
        Scope::Flair => 4,
        Scope::History => 5,
        Scope::Identity => 6,
        Scope::LiveManage => 7,
        Scope::ModConfig => 8,
        Scope::ModContributors => 9,
        Scope::ModFlair => 10,
        Scope::ModLog => 11,
        Scope::ModMail => 12,
        Scope::ModOthers => 13,
        Scope::ModPosts => 14,
        Scope::ModSelf => 15,
        Scope::ModTraffic => 16,
        Scope::ModWiki => 17,
        Scope::MySubreddits => 18,
        Scope::PrivateMessages => 19,
        Scope::Read => 20,
        Scope::Report => 21,
        Scope::Save => 22,
        Scope::StructuredStyles => 23,
        Scope::Submit => 24,
        Scope::Subscribe => 25,
        Scope::Vote => 26,
        Scope::WikiEdit => 27,
        Scope::WikiRead => 28,
    }
}

/// The wire name of a scope.
pub open spec fn spec_name(s: Scope) -> Seq<char> {
    match s {
        Scope::All => "*"@,
        Scope::Account => "account"@,
        Scope::Creddits => "creddits"@,
        Scope::Edit => "edit"@,
        Scope::Flair => "flair"@,
        Scope::History => "history"@,
        Scope::Identity => "identity"@,
        Scope::LiveManage => "livemanage"@,
        Scope::ModConfig => "modconfig"@,
        Scope::ModContributors => "modcontributors"@,
        Scope::ModFlair => "modflair"@,
        Scope::ModLog => "modlog"@,
        Scope::ModMail => "modmail"@,
        Scope::ModOthers => "modothers"@,
        Scope::ModPosts => "modposts"@,
        Scope::ModSelf => "modself"@,
        Scope::ModTraffic => "modtraffic"@,
        Scope::ModWiki => "modwiki"@,
        Scope::MySubreddits => "mysubreddits"@,
        Scope::PrivateMessages => "privatemessages"@,
        Scope::Read => "read"@,
        Scope::Report => "report"@,
        Scope::Save => "save"@,
        Scope::StructuredStyles => "structuredstyles"@,
        Scope::Submit => "submit"@,
        Scope::Subscribe => "subscribe"@,
        Scope::Vote => "vote"@,
        Scope::WikiEdit => "wikiedit"@,
        Scope::WikiRead => "wikiread"@,
    }
}

/// The scope whose wire name is the given character sequence, if any.
pub open spec fn spec_scope_from_name(s: Seq<char>) -> Option<Scope> {
    if s == "*"@ {
        Some(Scope::All)
    } else if s == "account"@ {
        Some(Scope::Account)
    } else if s == "creddits"@ {
        Some(Scope::Creddits)
    } else if s == "edit"@ {
        Some(Scope::Edit)
    } else if s == "flair"@ {
        Some(Scope::Flair)
    } else if s == "history"@ {
        Some(Scope::History)
    } else if s == "identity"@ {
        Some(Scope::Identity)
    } else if s == "livemanage"@ {
        Some(Scope::LiveManage)
    } else if s == "modconfig"@ {
        Some(Scope::ModConfig)
    } else if s == "modcontributors"@ {
        Some(Scope::ModContributors)
    } else if s == "modflair"@ {
        Some(Scope::ModFlair)
    } else if s == "modlog"@ {
        Some(Scope::ModLog)
    } else if s == "modmail"@ {
        Some(Scope::ModMail)
    } else if s == "modothers"@ {
        Some(Scope::ModOthers)
    } else if s == "modposts"@ {
        Some(Scope::ModPosts)
    } else if s == "modself"@ {
        Some(Scope::ModSelf)
    } else if s == "modtraffic"@ {
        Some(Scope::ModTraffic)
    } else if s == "modwiki"@ {
        Some(Scope::ModWiki)
    } else if s == "mysubreddits"@ {
        Some(Scope::MySubreddits)
    } else if s == "privatemessages"@ {
        Some(Scope::PrivateMessages)
    } else if s == "read"@ {
        Some(Scope::Read)
    } else if s == "report"@ {
        Some(Scope::Report)
    } else if s == "save"@ {
        Some(Scope::Save)
    } else if s == "structuredstyles"@ {
        Some(Scope::StructuredStyles)
    } else if s == "submit"@ {
        Some(Scope::Submit)
    } else if s == "subscribe"@ {
        Some(Scope::Subscribe)
    } else if s == "vote"@ {
        Some(Scope::Vote)
    } else if s == "wikiedit"@ {
        Some(Scope::WikiEdit)
    } else if s == "wikiread"@ {
        Some(Scope::WikiRead)
    } else {
        None
    }
}

impl Scope {
    /// The position of this scope in the canonical (alphabetical) order.
    pub fn rank(self) -> (r: u8)
        ensures
            r == spec_rank(self),
    {
        match self {
            Scope::All => 0,
            Scope::Account => 1,
            Scope::Creddits => 2,
            Scope::Edit => 3,
            Scope::Flair => 4,
            Scope::History => 5,
            Scope::Identity => 6,
            Scope::LiveManage => 7,
            Scope::ModConfig => 8,
            Scope::ModContributors => 9,
            Scope::ModFlair => 10,
            Scope::ModLog => 11,
            Scope::ModMail => 12,
            Scope::ModOthers => 13,
            Scope::ModPosts => 14,
            Scope::ModSelf => 15,
            Scope::ModTraffic => 16,
            Scope::ModWiki => 17,
            Scope::MySubreddits => 18,
            Scope::PrivateMessages => 19,
            Scope::Read => 20,
            Scope::Report => 21,
            Scope::Save => 22,
            Scope::StructuredStyles => 23,
            Scope::Submit => 24,
            Scope::Subscribe => 25,
            Scope::Vote => 26,
            Scope::WikiEdit => 27,
            Scope::WikiRead => 28,
        }
    }

    /// The wire name of this scope, as sent in scope strings.
    pub fn as_str(self) -> (r: &'static str)
        ensures
            r@ == spec_name(self),
    {
        match self {
            Scope::All => "*",
            Scope::Account => "account",
            Scope::Creddits => "creddits",
            Scope::Edit => "edit",
            Scope::Flair => "flair",
            Scope::History => "history",
            Scope::Identity => "identity",
            Scope::LiveManage => "livemanage",
            Scope::ModConfig => "modconfig",
            Scope::ModContributors => "modcontributors",
            Scope::ModFlair => "modflair",
            Scope::ModLog => "modlog",
            Scope::ModMail => "modmail",
            Scope::ModOthers => "modothers",
            Scope::ModPosts => "modposts",
            Scope::ModSelf => "modself",
            Scope::ModTraffic => "modtraffic",
            Scope::ModWiki => "modwiki",
            Scope::MySubreddits => "mysubreddits",
            Scope::PrivateMessages => "privatemessages",
            Scope::Read => "read",
            Scope::Report => "report",
            Scope::Save => "save",
            Scope::StructuredStyles => "structuredstyles",
            Scope::Submit => "submit",
            Scope::Subscribe => "subscribe",
            Scope::Vote => "vote",
            Scope::WikiEdit => "wikiedit",
            Scope::WikiRead => "wikiread",
        }
    }

    /// Parses a wire name back into a scope; unknown names yield `None`.
    pub fn from_str(s: &str) -> (r: Option<Scope>)
        ensures
            r == spec_scope_from_name(s@),
    {
        let n = s.unicode_len();
        let mut v: Vec<char> = Vec::new();
        let mut i: usize = 0;
        while i < n
            invariant
                n == s@.len(),
                0 <= i <= n,
                v@ =~= s@.take(i as int),
            decreases n - i,
        {
            v.push(s.get_char(i));
            i += 1;
        }
        proof {
            assert(v@ =~= s@);
        }
        Scope::from_chars(&v)
    }

    /// Parses a wire name given as a vector of characters.
    pub fn from_chars(v: &Vec<char>) -> (r: Option<Scope>)
        ensures
            r == spec_scope_from_name(v@),
    {
        if chars_eq(v, "*") {
            Some(Scope::All)
        } else if chars_eq(v, "account") {
            Some(Scope::Account)
        } else if chars_eq(v, "creddits") {
            Some(Scope::Creddits)
        } else if chars_eq(v, "edit") {
            Some(Scope::Edit)
        } else if chars_eq(v, "flair") {
            Some(Scope::Flair)
        } else if chars_eq(v, "history") {
            Some(Scope::History)
        } else if chars_eq(v, "identity") {
            Some(Scope::Identity)
        } else if chars_eq(v, "livemanage") {
            Some(Scope::LiveManage)
        } else if chars_eq(v, "modconfig") {
            Some(Scope::ModConfig)
        } else if chars_eq(v, "modcontributors") {
            Some(Scope::ModContributors)
        } else if chars_eq(v, "modflair") {
            Some(Scope::ModFlair)
        } else if chars_eq(v, "modlog") {
            Some(Scope::ModLog)
        } else if chars_eq(v, "modmail") {
            Some(Scope::ModMail)
        } else if chars_eq(v, "modothers") {
            Some(Scope::ModOthers)
        } else if chars_eq(v, "modposts") {
            Some(Scope::ModPosts)
        } else if chars_eq(v, "modself") {
            Some(Scope::ModSelf)
        } else if chars_eq(v, "modtraffic") {
            Some(Scope::ModTraffic)
        } else if chars_eq(v, "modwiki") {
            Some(Scope::ModWiki)
        } else if chars_eq(v, "mysubreddits") {
            Some(Scope::MySubreddits)
        } else if chars_eq(v, "privatemessages") {
            Some(Scope::PrivateMessages)
        } else if chars_eq(v, "read") {
            Some(Scope::Read)
        } else if chars_eq(v, "report") {
            Some(Scope::Report)
        } else if chars_eq(v, "save") {
            Some(Scope::Save)
        } else if chars_eq(v, "structuredstyles") {
            Some(Scope::StructuredStyles)
        } else if chars_eq(v, "submit") {
            Some(Scope::Submit)
        } else if chars_eq(v, "subscribe") {
            Some(Scope::Subscribe)
        } else if chars_eq(v, "vote") {
            Some(Scope::Vote)
        } else if chars_eq(v, "wikiedit") {
            Some(Scope::WikiEdit)
        } else if chars_eq(v, "wikiread") {
            Some(Scope::WikiRead)
        } else {
            None
        }
    }
}

/// Ranks determine scopes: two scopes with the same rank are the same scope.
pub proof fn lemma_rank_injective(a: Scope, b: Scope)
    requires
        spec_rank(a) == spec_rank(b),
    ensures
        a == b,
{
}

/// Whether a sequence of scopes is strictly sorted by rank.
pub open spec fn spec_rank_sorted(s: Seq<Scope>) -> bool {
    forall|i: int, j: int| 0 <= i < j < s.len() ==> spec_rank(s[i]) < spec_rank(s[j])
}

/// Two rank-sorted sequences with the same members are equal.
proof fn lemma_sorted_seqs_with_equal_members(s1: Seq<Scope>, s2: Seq<Scope>)
    requires
        spec_rank_sorted(s1),
        spec_rank_sorted(s2),
        s1.to_set() == s2.to_set(),
    ensures
        s1 == s2,
    decreases s1.len(),
{
    if s1.len() == 0 {
        if s2.len() > 0 {
            assert(s2.to_set().contains(s2[0]));
            assert(s1.contains(s2[0]));
            assert(false);
        }
        assert(s1 =~= s2);
    } else {
        assert(s1.to_set().contains(s1[0]));
        assert(s2.contains(s1[0]));
        assert(s2.to_set().contains(s2[0]));
        assert(s1.contains(s2[0]));
        assert forall|x: Scope| s1.contains(x) implies spec_rank(s1[0]) <= spec_rank(x) by {
            let k = choose|k: int| 0 <= k < s1.len() && s1[k] == x;
            if k > 0 {
                assert(spec_rank(s1[0]) < spec_rank(s1[k]));
            }
        }
        assert forall|x: Scope| s2.contains(x) implies spec_rank(s2[0]) <= spec_rank(x) by {
            let k = choose|k: int| 0 <= k < s2.len() && s2[k] == x;
            if k > 0 {
                assert(spec_rank(s2[0]) < spec_rank(s2[k]));
            }
        }
        lemma_rank_injective(s1[0], s2[0]);
        let t1 = s1.drop_first();
        let t2 = s2.drop_first();
        assert forall|x: Scope| t1.to_set().contains(x) <==> s1.to_set().remove(s1[0]).contains(
            x,
        ) by {
            if t1.contains(x) {
                let k = choose|k: int| 0 <= k < t1.len() && t1[k] == x;
                assert(s1[k + 1] == x);
                assert(spec_rank(s1[0]) < spec_rank(s1[k + 1]));
            }
            if s1.contains(x) && x != s1[0] {
                let k = choose|k: int| 0 <= k < s1.len() && s1[k] == x;
                assert(k > 0);
                assert(t1[k - 1] == x);
            }
        }
        assert forall|x: Scope| t2.to_set().contains(x) <==> s2.to_set().remove(s2[0]).contains(
            x,
        ) by {
            if t2.contains(x) {
                let k = choose|k: int| 0 <= k < t2.len() && t2[k] == x;
                assert(s2[k + 1] == x);
                assert(spec_rank(s2[0]) < spec_rank(s2[k + 1]));
            }
            if s2.contains(x) && x != s2[0] {
                let k = choose|k: int| 0 <= k < s2.len() && s2[k] == x;
                assert(k > 0);
                assert(t2[k - 1] == x);
            }
        }
        assert(t1.to_set() =~= t2.to_set());
        assert forall|i: int, j: int| 0 <= i < j < t1.len() implies spec_rank(t1[i]) < spec_rank(
            t1[j],
        ) by {
            assert(t1[i] == s1[i + 1] && t1[j] == s1[j + 1]);
        }
        assert forall|i: int, j: int| 0 <= i < j < t2.len() implies spec_rank(t2[i]) < spec_rank(
            t2[j],
        ) by {
            assert(t2[i] == s2[i + 1] && t2[j] == s2[j + 1]);
        }
        lemma_sorted_seqs_with_equal_members(t1, t2);
        assert forall|i: int| 0 <= i < s1.len() implies s1[i] == s2[i] by {
            if i > 0 {
                assert(s1[i] == t1[i - 1] && s2[i] == t2[i - 1]);
            }
        }
        assert(s1 =~= s2);
    }
}

/// What a set of scopes holds after an insertion.
///
/// The wildcard replaces everything; inserting anything else into a set that
/// already holds the wildcard changes nothing, since the wildcard already
/// grants it; otherwise the scope is simply added.
pub open spec fn spec_insert(s: Set<Scope>, scope: Scope) -> Set<Scope> {
    if scope == Scope::All {
        Set::empty().insert(Scope::All)
    } else if s.contains(Scope::All) {
        s
    } else {
        s.insert(scope)
    }
}

/// Whether an insertion reports having changed the set.
pub open spec fn spec_insert_added(s: Set<Scope>, scope: Scope) -> bool {
    if scope == Scope::All {
        true
    } else if s.contains(Scope::All) {
        false
    } else {
        !s.contains(scope)
    }
}

/// Inserting the wildcard yields a set holding only `All`, whatever the
/// prior contents were, and doing so twice is the same as doing it once.
pub proof fn lemma_insert_all_collapses(s: Set<Scope>)
    ensures
        spec_insert(s, Scope::All) =~= Set::empty().insert(Scope::All),
        spec_insert(spec_insert(s, Scope::All), Scope::All) =~= spec_insert(s, Scope::All),
{
}

/// A set of [`Scope`]s with unique elements, kept sorted in the canonical
/// order so that its serialized form is unique.
#[derive(Clone, Debug)]
pub struct ScopeSet {
    scopes: Vec<Scope>,
}

impl View for ScopeSet {
    type V = Set<Scope>;

    closed spec fn view(&self) -> Set<Scope> {
        self.scopes@.to_set()
    }
}

impl ScopeSet {
    /// The members in canonical (sorted) order.
    pub closed spec fn to_seq(&self) -> Seq<Scope> {
        self.scopes@
    }

    /// The members are strictly sorted by rank, and the wildcard never
    /// shares the set with anything else.
    pub closed spec fn well_formed(&self) -> bool {
        &&& forall|i: int, j: int|
            0 <= i < j < self.scopes@.len() ==> spec_rank(self.scopes@[i]) < spec_rank(
                self.scopes@[j],
            )
        &&& self.scopes@.contains(Scope::All) ==> self.scopes@.len() == 1
    }

    /// The sorted member sequence holds exactly the members of the set view.
    pub proof fn lemma_seq_set(&self)
        ensures
            self.to_seq().to_set() == self@,
            self@.finite(),
            self.well_formed() ==> self@.len() == self.to_seq().len(),
            forall|s: Scope| self.to_seq().contains(s) <==> self@.contains(s),
    {
        self.scopes@.lemma_cardinality_of_set();
        if self.well_formed() {
            assert(self.scopes@.no_duplicates());
            self.scopes@.unique_seq_to_set();
        }
    }

    /// The member sequence is canonical: strictly sorted by rank — the
    /// wildcard first, the rest in alphabetical order of their wire names
    /// — and therefore free of duplicates.
    pub proof fn lemma_canonical_order(&self)
        requires
            self.well_formed(),
        ensures
            spec_rank_sorted(self.to_seq()),
            self.to_seq().no_duplicates(),
    {
        assert(spec_rank_sorted(self.to_seq()));
        assert(self.to_seq().no_duplicates());
    }

    /// The member sequence is determined by the members alone: two
    /// well-formed sets with the same members have the same canonical
    /// sequence, and so the same serialization.
    pub proof fn lemma_canonical_unique(a: &ScopeSet, b: &ScopeSet)
        requires
            a.well_formed(),
            b.well_formed(),
            a@ == b@,
        ensures
            a.to_seq() == b.to_seq(),
    {
        a.lemma_seq_set();
        b.lemma_seq_set();
        lemma_sorted_seqs_with_equal_members(a.to_seq(), b.to_seq());
    }

    /// Creates an empty set.
    pub fn new() -> (r: ScopeSet)
        ensures
            r.well_formed(),
            r@ == Set::<Scope>::empty(),
            r.to_seq() == Seq::<Scope>::empty(),
    {
        let r = ScopeSet { scopes: Vec::new() };
        proof {
            assert(r.scopes@.to_set() =~= Set::<Scope>::empty());
        }
        r
    }

    /// Returns true if the set contains no elements.
    pub fn is_empty(&self) -> (r: bool)
        ensures
            r == (self@ =~= Set::<Scope>::empty()),
    {
        proof {
            if self.scopes@.len() > 0 {
                assert(self@.contains(self.scopes@[0]));
            } else {
                assert(self.scopes@.to_set() =~= Set::<Scope>::empty());
            }
        }
        self.scopes.len() == 0
    }

    /// Returns the number of elements in the set.
    pub fn len(&self) -> (r: usize)
        requires
            self.well_formed(),
        ensures
            r == self@.len(),
    {
        proof {
            self.lemma_seq_set();
        }
        self.scopes.len()
    }

    /// Returns true if the set contains the given scope.
    pub fn contains(&self, scope: Scope) -> (r: bool)
        ensures
            r == self@.contains(scope),
    {
        let n = self.scopes.len();
        let mut i: usize = 0;
        while i < n
            invariant
                n == self.scopes@.len(),
                0 <= i <= n,
                forall|j: int| 0 <= j < i ==> self.scopes@[j] != scope,
            decreases n - i,
        {
            if self.scopes[i] == scope {
                return true;
            }
            i += 1;
        }
        proof {
            assert(!self.scopes@.contains(scope));
        }
        false
    }

    /// Adds a scope to the set, keeping the canonical order, and returns
    /// whether the set changed.
    ///
    /// Inserting [`Scope::All`] clears the set first, so the wildcard is
    /// always alone; for that reason inserting it always reports `true`.
    /// Inserting any other scope into a set that already holds the wildcard
    /// leaves the set unchanged, since the wildcard already grants it.
    pub fn insert(&mut self, scope: Scope) -> (r: bool)
        requires
            old(self).well_formed(),
        ensures
            final(self).well_formed(),
            final(self)@ == spec_insert(old(self)@, scope),
            r == spec_insert_added(old(self)@, scope),
    {
        if scope == Scope::All {
            self.scopes.clear();
            self.scopes.push(Scope::All);
            proof {
                assert(self.scopes@[0] == Scope::All);
                assert forall|x: Scope| self.scopes@.to_set().contains(x) implies x
                    == Scope::All by {
                    let k = choose|k: int|
                        0 <= k < self.scopes@.len() && self.scopes@[k] == x;
                    assert(k == 0);
                }
                assert(self.scopes@.to_set() =~= Set::empty().insert(Scope::All));
            }
            true
        } else if self.contains(Scope::All) {
            false
        } else {
            let n = self.scopes.len();
            let mut i: usize = 0;
            while i < n && self.scopes[i].rank() < scope.rank()
                invariant
                    n == self.scopes@.len(),
                    0 <= i <= n,
                    forall|j: int| 0 <= j < i ==> spec_rank(self.scopes@[j]) < spec_rank(scope),
                decreases n - i,
            {
                i += 1;
            }
            if i < n && self.scopes[i].rank() == scope.rank() {
                proof {
                    lemma_rank_injective(self.scopes@[i as int], scope);
                    assert(self@.contains(scope));
                }
                false
            } else {
                proof {
                    assert forall|j: int| 0 <= j < self.scopes@.len() implies self.scopes@[j]
                        != scope by {
                        if spec_rank(self.scopes@[j]) == spec_rank(scope) {
                            lemma_rank_injective(self.scopes@[j], scope);
                        }
                    }
                    assert(!self.scopes@.contains(scope));
                }
                let ghost old_seq = self.scopes@;
                self.scopes.insert(i, scope);
                proof {
                    let new_seq = self.scopes@;
                    assert forall|x: Scope| new_seq.to_set().contains(x) <==> old_seq.to_set()
                        .insert(scope).contains(x) by {
                        if new_seq.contains(x) {
                            let k = choose|k: int| 0 <= k < new_seq.len() && new_seq[k] == x;
                            if k < i {
                                assert(old_seq[k] == x);
                            } else if k == i {
                                assert(x == scope);
                            } else {
                                assert(old_seq[k - 1] == x);
                            }
                        }
                        if old_seq.contains(x) {
                            let k = choose|k: int| 0 <= k < old_seq.len() && old_seq[k] == x;
                            if k < i {
                                assert(new_seq[k] == x);
                            } else {
                                assert(new_seq[k + 1] == x);
                            }
                        }
                        if x == scope {
                            assert(new_seq[i as int] == x);
                        }
                    }
                    assert(new_seq.to_set() =~= old_seq.to_set().insert(scope));
                    assert forall|p: int, q: int|
                        0 <= p < q < new_seq.len() implies spec_rank(new_seq[p]) < spec_rank(
                        new_seq[q],
                    ) by {
                        if q <= i {
                        } else if p >= i {
                        } else if p < i && q == i {
                        } else {
                        }
                    }
                    assert(!new_seq.contains(Scope::All)) by {
                        if new_seq.contains(Scope::All) {
                            let k = choose|k: int|
                                0 <= k < new_seq.len() && new_seq[k] == Scope::All;
                            if k < i {
                                assert(old_seq[k] == Scope::All);
                            } else if k == i {
                                assert(scope == Scope::All);
                            } else {
                                assert(old_seq[k - 1] == Scope::All);
                            }
                            assert(old_seq.contains(Scope::All) || scope == Scope::All);
                        }
                    }
                }
                true
            }
        }
    }

    /// Removes a scope from the set; returns true if it was present.
    pub fn remove(&mut self, scope: Scope) -> (r: bool)
        requires
            old(self).well_formed(),
        ensures
            final(self).well_formed(),
            final(self)@ == old(self)@.remove(scope),
            r == old(self)@.contains(scope),
    {
        let n = self.scopes.len();
        let mut i: usize = 0;
        while i < n
            invariant
                old(self).well_formed(),
                self.scopes@ == old(self).scopes@,
                n == self.scopes@.len(),
                0 <= i <= n,
                forall|j: int| 0 <= j < i ==> self.scopes@[j] != scope,
            decreases n - i,
        {
            if self.scopes[i] == scope {
                let ghost old_seq = self.scopes@;
                self.scopes.remove(i);
                proof {
                    let new_seq = self.scopes@;
                    assert(old_seq.contains(scope));
                    assert forall|x: Scope| new_seq.to_set().contains(x) <==> old_seq.to_set()
                        .remove(scope).contains(x) by {
                        if new_seq.contains(x) {
                            let k = choose|k: int| 0 <= k < new_seq.len() && new_seq[k] == x;
                            if k < i {
                                assert(old_seq[k] == x);
                            } else {
                                assert(old_seq[k + 1] == x);
                            }
                            if x == scope {
                                let k2: int = if k < i {
                                    k
                                } else {
                                    k + 1
                                };
                                assert(old_seq[k2] == scope && old_seq[i as int] == scope);
                                assert(old_seq.no_duplicates());
                                assert(false);
                            }
                        }
                        if old_seq.to_set().remove(scope).contains(x) {
                            let k = choose|k: int| 0 <= k < old_seq.len() && old_seq[k] == x;
                            assert(k != i);
                            if k < i {
                                assert(new_seq[k] == x);
                            } else {
                                assert(new_seq[k - 1] == x);
                            }
                        }
                    }
                    assert(new_seq.to_set() =~= old_seq.to_set().remove(scope));
                    assert(new_seq.contains(Scope::All) ==> new_seq.len() == 1) by {
                        if new_seq.contains(Scope::All) {
                            let k = choose|k: int|
                                0 <= k < new_seq.len() && new_seq[k] == Scope::All;
                            if k < i {
                                assert(old_seq[k] == Scope::All);
                            } else {
                                assert(old_seq[k + 1] == Scope::All);
                            }
                            assert(old_seq.contains(Scope::All));
                            assert(old_seq.len() == 1);
                            assert(new_seq.len() == 0);
                            assert(false);
                        }
                    }
                }
                return true;
            }
            i += 1;
        }
        proof {
            assert(!self.scopes@.contains(scope));
            assert(self.scopes@.to_set() =~= self.scopes@.to_set().remove(scope));
        }
        false
    }

    /// Removes and returns the scope, if it was present.
    pub fn take(&mut self, scope: Scope) -> (r: Option<Scope>)
        requires
            old(self).well_formed(),
        ensures
            final(self).well_formed(),
            final(self)@ == old(self)@.remove(scope),
            r == if old(self)@.contains(scope) {
                Some(scope)
            } else {
                None::<Scope>
            },
    {
        if self.remove(scope) {
            Some(scope)
        } else {
            None
        }
    }

    /// Clears the set, removing all scopes.
    pub fn clear(&mut self)
        ensures
            final(self).well_formed(),
            final(self)@ == Set::<Scope>::empty(),
            final(self).to_seq() == Seq::<Scope>::empty(),
    {
        self.scopes.clear();
        proof {
            assert(self.scopes@.to_set() =~= Set::<Scope>::empty());
        }
    }

    /// An identical copy of the set.
    pub fn duplicate(&self) -> (r: ScopeSet)
        ensures
            r.to_seq() == self.to_seq(),
            r@ == self@,
            self.well_formed() ==> r.well_formed(),
    {
        ScopeSet { scopes: self.iter() }
    }

    /// The members in canonical order, as a fresh vector.
    pub fn iter(&self) -> (r: Vec<Scope>)
        ensures
            r@ == self.to_seq(),
    {
        let n = self.scopes.len();
        let mut out: Vec<Scope> = Vec::new();
        let mut i: usize = 0;
        while i < n
            invariant
                n == self.scopes@.len(),
                0 <= i <= n,
                out@ =~= self.scopes@.take(i as int),
            decreases n - i,
        {
            out.push(self.scopes[i]);
            i += 1;
        }
        proof {
            assert(out@ =~= self.scopes@);
        }
        out
    }
}

impl Default for ScopeSet {
    /// The default scope set holds only [`Scope::Identity`].
    fn default() -> (r: ScopeSet)
        ensures
            r.well_formed(),
            r@ == Set::<Scope>::empty().insert(Scope::Identity),
            r.to_seq() == seq![Scope::Identity],
    {
        let mut r = ScopeSet::new();
        r.insert(Scope::Identity);
        proof {
            r.lemma_seq_set();
            assert(r@.len() == 1) by {
                assert(r@ =~= Set::<Scope>::empty().insert(Scope::Identity));
            }
            assert(r.to_seq().contains(Scope::Identity));
            let k = choose|k: int| 0 <= k < r.to_seq().len() && r.to_seq()[k] == Scope::Identity;
            assert(k == 0);
            assert(r.to_seq() =~= seq![Scope::Identity]);
        }
        r
    }
}

impl PartialEq for ScopeSet {
    fn eq(&self, other: &ScopeSet) -> (r: bool) {
        let n = self.scopes.len();
        if n != other.scopes.len() {
            return false;
        }
        let mut i: usize = 0;
        while i < n
            invariant
                n == self.scopes@.len(),
                n == other.scopes@.len(),
                0 <= i <= n,
                forall|j: int| 0 <= j < i ==> self.scopes@[j] == other.scopes@[j],
            decreases n - i,
        {
            if self.scopes[i] != other.scopes[i] {
                return false;
            }
            i += 1;
        }
        proof {
            assert(self.scopes@ =~= other.scopes@);
        }
        true
    }
}

impl Eq for ScopeSet {

}

impl vstd::std_specs::cmp::PartialEqSpecImpl for ScopeSet {
    open spec fn obeys_eq_spec() -> bool {
        true
    }

    open spec fn eq_spec(&self, other: &ScopeSet) -> bool {
        self.to_seq() == other.to_seq()
    }
}

/// The canonical serialization of a member sequence: the wire names in
/// order, joined by single spaces.
pub open spec fn spec_join(s: Seq<Scope>) -> Seq<char>
    decreases s.len(),
{
    if s.len() == 0 {
        Seq::empty()
    } else {
        spec_name(s[0]) + spec_rest_join(s.drop_first())
    }
}

/// The serialization of every member after the first, each preceded by a
/// space.
pub open spec fn spec_rest_join(s: Seq<Scope>) -> Seq<char>
    decreases s.len(),
{
    if s.len() == 0 {
        Seq::empty()
    } else {
        seq![' '] + spec_name(s[0]) + spec_rest_join(s.drop_first())
    }
}

/// Finishes a pending token while parsing a scope string: an empty token is
/// skipped, a known name is inserted, and an unknown name fails the parse.
pub open spec fn spec_flush(tok: Seq<char>, acc: Set<Scope>) -> Option<Set<Scope>> {
    if tok.len() == 0 {
        Some(acc)
    } else {
        match spec_scope_from_name(tok) {
            Some(sc) => Some(spec_insert(acc, sc)),
            None => None,
        }
    }
}

/// Parses the remaining characters of a scope string, given the token read
/// so far and the scopes already collected.
pub open spec fn spec_parse_rem(rem: Seq<char>, tok: Seq<char>, acc: Set<Scope>) -> Option<
    Set<Scope>,
>
    decreases rem.len(),
{
    if rem.len() == 0 {
        spec_flush(tok, acc)
    } else if rem[0] == ' ' {
        match spec_flush(tok, acc) {
            Some(acc2) => spec_parse_rem(rem.drop_first(), Seq::empty(), acc2),
            None => None,
        }
    } else {
        spec_parse_rem(rem.drop_first(), tok.push(rem[0]), acc)
    }
}

/// Parses a space-joined scope string into the set it denotes; any unknown
/// scope name fails the whole parse.
pub open spec fn spec_parse_scopes(s: Seq<char>) -> Option<Set<Scope>> {
    spec_parse_rem(s, Seq::empty(), Set::empty())
}

/// The set obtained by inserting each member of a sequence in turn.
pub open spec fn spec_fold_insert(acc: Set<Scope>, v: Seq<Scope>) -> Set<Scope>
    decreases v.len(),
{
    if v.len() == 0 {
        acc
    } else {
        spec_fold_insert(spec_insert(acc, v[0]), v.drop_first())
    }
}

impl ScopeSet {
    /// Serializes the set into its canonical space-joined string, with the
    /// wire names in alphabetical order.
    pub fn to_scope_string(&self) -> (r: String)
        ensures
            r@ == spec_join(self.to_seq()),
    {
        let n = self.scopes.len();
        let mut out = String::new();
        if n == 0 {
            return out;
        }
        out.append(self.scopes[0].as_str());
        let mut i: usize = 1;
        while i < n
            invariant
                n == self.scopes@.len(),
                1 <= i <= n,
                out@ + spec_rest_join(self.scopes@.skip(i as int)) == spec_join(self.scopes@),
            decreases n - i,
        {
            proof {
                reveal_strlit(" ");
                assert(" "@ =~= seq![' ']);
                let rest = self.scopes@.skip(i as int);
                assert(rest[0] == self.scopes@[i as int]);
                assert(rest.drop_first() =~= self.scopes@.skip(i as int + 1));
            }
            out.append(" ");
            out.append(self.scopes[i].as_str());
            i += 1;
        }
        proof {
            assert(self.scopes@.skip(n as int) =~= Seq::<Scope>::empty());
            assert(out@ + Seq::<char>::empty() =~= out@);
        }
        out
    }

    /// Parses a space-joined scope string; unknown scope names fail.
    ///
    /// Runs of spaces are allowed between names; the empty string denotes
    /// the empty set.
    pub fn from_scope_string(s: &str) -> (r: Option<ScopeSet>)
        ensures
            match r {
                Some(set) => set.well_formed() && spec_parse_scopes(s@) == Some(set@),
                None => spec_parse_scopes(s@) is None,
            },
    {
        let n = s.unicode_len();
        let mut acc = ScopeSet::new();
        let mut tok: Vec<char> = Vec::new();
        let mut i: usize = 0;
        proof {
            assert(s@.skip(0) =~= s@);
        }
        while i < n
            invariant
                n == s@.len(),
                0 <= i <= n,
                acc.well_formed(),
                spec_parse_rem(s@.skip(i as int), tok@, acc@) == spec_parse_scopes(s@),
            decreases n - i,
        {
            let c = s.get_char(i);
            proof {
                let rest = s@.skip(i as int);
                assert(rest[0] == s@[i as int]);
                assert(rest.drop_first() =~= s@.skip(i as int + 1));
            }
            if c == ' ' {
                if tok.len() > 0 {
                    match Scope::from_chars(&tok) {
                        None => {
                            return None;
                        },
                        Some(sc) => {
                            acc.insert(sc);
                            tok.clear();
                        },
                    }
                } else {
                    proof {
                        assert(tok@ =~= Seq::<char>::empty());
                    }
                }
            } else {
                tok.push(c);
            }
            i += 1;
        }
        proof {
            assert(s@.skip(n as int) =~= Seq::<char>::empty());
        }
        if tok.len() > 0 {
            match Scope::from_chars(&tok) {
                None => {
                    return None;
                },
                Some(sc) => {
                    acc.insert(sc);
                },
            }
        }
        Some(acc)
    }
}

/// Every wire name is nonempty, contains no space, and parses back to the
/// scope it names.
pub proof fn lemma_name_facts(sc: Scope)
    ensures
        spec_name(sc).len() > 0,
        forall|i: int| 0 <= i < spec_name(sc).len() ==> spec_name(sc)[i] != ' ',
        spec_scope_from_name(spec_name(sc)) == Some(sc),
{
    reveal_strlit("*");
    reveal_strlit("account");
    reveal_strlit("creddits");
    reveal_strlit("edit");
    reveal_strlit("flair");
    reveal_strlit("history");
    reveal_strlit("identity");
    reveal_strlit("livemanage");
    reveal_strlit("modconfig");
    reveal_strlit("modcontributors");
    reveal_strlit("modflair");
    reveal_strlit("modlog");
    reveal_strlit("modmail");
    reveal_strlit("modothers");
    reveal_strlit("modposts");
    reveal_strlit("modself");
    reveal_strlit("modtraffic");
    reveal_strlit("modwiki");
    reveal_strlit("mysubreddits");
    reveal_strlit("privatemessages");
    reveal_strlit("read");
    reveal_strlit("report");
    reveal_strlit("save");
    reveal_strlit("structuredstyles");
    reveal_strlit("submit");
    reveal_strlit("subscribe");
    reveal_strlit("vote");
    reveal_strlit("wikiedit");
    reveal_strlit("wikiread");
    assert("*"@.len() == 1);
    assert("account"@.len() == 7);
    assert("creddits"@.len() == 8);
    assert("edit"@.len() == 4);
    assert("flair"@.len() == 5);
    assert("history"@.len() == 7);
    assert("identity"@.len() == 8);
    assert("livemanage"@.len() == 10);
    assert("modconfig"@.len() == 9);
    assert("modcontributors"@.len() == 15);
    assert("modflair"@.len() == 8);
    assert("modlog"@.len() == 6);
    assert("modmail"@.len() == 7);
    assert("modothers"@.len() == 9);
    assert("modposts"@.len() == 8);
    assert("modself"@.len() == 7);
    assert("modtraffic"@.len() == 10);
    assert("modwiki"@.len() == 7);
    assert("mysubreddits"@.len() == 12);
    assert("privatemessages"@.len() == 15);
    assert("read"@.len() == 4);
    assert("report"@.len() == 6);
    assert("save"@.len() == 4);
    assert("structuredstyles"@.len() == 16);
    assert("submit"@.len() == 6);
    assert("subscribe"@.len() == 9);
    assert("vote"@.len() == 4);
    assert("wikiedit"@.len() == 8);
    assert("wikiread"@.len() == 8);
    assert("read"@[0] != "edit"@[0]);
    assert("save"@[0] != "edit"@[0]);
    assert("save"@[0] != "read"@[0]);
    assert("vote"@[0] != "edit"@[0]);
    assert("vote"@[0] != "read"@[0]);
    assert("vote"@[0] != "save"@[0]);
    assert("report"@[0] != "modlog"@[0]);
    assert("submit"@[0] != "modlog"@[0]);
    assert("submit"@[0] != "report"@[0]);
    assert("history"@[0] != "account"@[0]);
    assert("modmail"@[0] != "account"@[0]);
    assert("modmail"@[0] != "history"@[0]);
    assert("modself"@[0] != "account"@[0]);
    assert("modself"@[0] != "history"@[0]);
    assert("modself"@[3] != "modmail"@[3]);
    assert("modwiki"@[0] != "account"@[0]);
    assert("modwiki"@[0] != "history"@[0]);
    assert("modwiki"@[3] != "modmail"@[3]);
    assert("modwiki"@[3] != "modself"@[3]);
    assert("identity"@[0] != "creddits"@[0]);
    assert("modflair"@[0] != "creddits"@[0]);
    assert("modflair"@[0] != "identity"@[0]);
    assert("modposts"@[0] != "creddits"@[0]);
    assert("modposts"@[0] != "identity"@[0]);
    assert("modposts"@[3] != "modflair"@[3]);
    assert("wikiedit"@[0] != "creddits"@[0]);
    assert("wikiedit"@[0] != "identity"@[0]);
    assert("wikiedit"@[0] != "modflair"@[0]);
    assert("wikiedit"@[0] != "modposts"@[0]);
    assert("wikiread"@[0] != "creddits"@[0]);
    assert("wikiread"@[0] != "identity"@[0]);
    assert("wikiread"@[0] != "modflair"@[0]);
    assert("wikiread"@[0] != "modposts"@[0]);
    assert("wikiread"@[4] != "wikiedit"@[4]);
    assert("modothers"@[3] != "modconfig"@[3]);
    assert("subscribe"@[0] != "modconfig"@[0]);
    assert("subscribe"@[0] != "modothers"@[0]);
    assert("modtraffic"@[0] != "livemanage"@[0]);
    assert("privatemessages"@[0] != "modcontributors"@[0]);
    match sc {
        Scope::All => assert(spec_scope_from_name(spec_name(sc)) == Some(Scope::All)),
        Scope::Account => assert(spec_scope_from_name(spec_name(sc)) == Some(Scope::Account)),
        Scope::Creddits => assert(spec_scope_from_name(spec_name(sc)) == Some(Scope::Creddits)),
        Scope::Edit => assert(spec_scope_from_name(spec_name(sc)) == Some(Scope::Edit)),
        Scope::Flair => assert(spec_scope_from_name(spec_name(sc)) == Some(Scope::Flair)),
        Scope::History => assert(spec_scope_from_name(spec_name(sc)) == Some(Scope::History)),
        Scope::Identity => assert(spec_scope_from_name(spec_name(sc)) == Some(Scope::Identity)),
        Scope::LiveManage => assert(spec_scope_from_name(spec_name(sc)) == Some(
            Scope::LiveManage,
        )),
        Scope::ModConfig => assert(spec_scope_from_name(spec_name(sc)) == Some(Scope::ModConfig)),
        Scope::ModContributors => assert(spec_scope_from_name(spec_name(sc)) == Some(
            Scope::ModContributors,
        )),
        Scope::ModFlair => assert(spec_scope_from_name(spec_name(sc)) == Some(Scope::ModFlair)),
        Scope::ModLog => assert(spec_scope_from_name(spec_name(sc)) == Some(Scope::ModLog)),
        Scope::ModMail => assert(spec_scope_from_name(spec_name(sc)) == Some(Scope::ModMail)),
        Scope::ModOthers => assert(spec_scope_from_name(spec_name(sc)) == Some(Scope::ModOthers)),
        Scope::ModPosts => assert(spec_scope_from_name(spec_name(sc)) == Some(Scope::ModPosts)),
        Scope::ModSelf => assert(spec_scope_from_name(spec_name(sc)) == Some(Scope::ModSelf)),
        Scope::ModTraffic => assert(spec_scope_from_name(spec_name(sc)) == Some(
            Scope::ModTraffic,
        )),
        Scope::ModWiki => assert(spec_scope_from_name(spec_name(sc)) == Some(Scope::ModWiki)),
        Scope::MySubreddits => assert(spec_scope_from_name(spec_name(sc)) == Some(
            Scope::MySubreddits,
        )),
        Scope::PrivateMessages => assert(spec_scope_from_name(spec_name(sc)) == Some(
            Scope::PrivateMessages,
        )),
        Scope::Read => assert(spec_scope_from_name(spec_name(sc)) == Some(Scope::Read)),
        Scope::Report => assert(spec_scope_from_name(spec_name(sc)) == Some(Scope::Report)),
        Scope::Save => assert(spec_scope_from_name(spec_name(sc)) == Some(Scope::Save)),
        Scope::StructuredStyles => assert(spec_scope_from_name(spec_name(sc)) == Some(
            Scope::StructuredStyles,
        )),
        Scope::Submit => assert(spec_scope_from_name(spec_name(sc)) == Some(Scope::Submit)),
        Scope::Subscribe => assert(spec_scope_from_name(spec_name(sc)) == Some(Scope::Subscribe)),
        Scope::Vote => assert(spec_scope_from_name(spec_name(sc)) == Some(Scope::Vote)),
        Scope::WikiEdit => assert(spec_scope_from_name(spec_name(sc)) == Some(Scope::WikiEdit)),
        Scope::WikiRead => assert(spec_scope_from_name(spec_name(sc)) == Some(Scope::WikiRead)),
    }
}

/// Reading a space-free, nonempty token at the head of the input appends it
/// to the pending token.
proof fn lemma_parse_token(t: Seq<char>, rest: Seq<char>, tok: Seq<char>, acc: Set<Scope>)
    requires
        t.len() > 0,
        forall|i: int| 0 <= i < t.len() ==> t[i] != ' ',
    ensures
        spec_parse_rem(t + rest, tok, acc) == spec_parse_rem(rest, tok + t, acc),
    decreases t.len(),
{
    let whole = t + rest;
    assert(whole[0] == t[0]);
    assert(whole.len() > 0);
    if t.len() == 1 {
        assert(whole.drop_first() =~= rest);
        assert(tok.push(t[0]) =~= tok + t);
    } else {
        assert(whole.drop_first() =~= t.drop_first() + rest);
        assert(forall|i: int|
            0 <= i < t.drop_first().len() ==> t.drop_first()[i] == t[i + 1] && t.drop_first()[i]
                != ' ');
        lemma_parse_token(t.drop_first(), rest, tok.push(t[0]), acc);
        assert(tok.push(t[0]) + t.drop_first() =~= tok + t);
    }
}

/// Parsing the serialization of a member sequence folds its members into
/// the accumulator.
proof fn lemma_parse_join(v: Seq<Scope>, acc: Set<Scope>)
    ensures
        spec_parse_rem(spec_join(v), Seq::empty(), acc) == Some(spec_fold_insert(acc, v)),
    decreases v.len(),
{
    if v.len() == 0 {
    } else {
        let name = spec_name(v[0]);
        let v2 = v.drop_first();
        lemma_name_facts(v[0]);
        lemma_parse_token(name, spec_rest_join(v2), Seq::empty(), acc);
        assert(Seq::<char>::empty() + name =~= name);
        let acc2 = spec_insert(acc, v[0]);
        assert(spec_flush(name, acc) == Some(acc2));
        assert(spec_fold_insert(acc, v) == spec_fold_insert(acc2, v2));
        if v2.len() == 0 {
            assert(spec_rest_join(v2) =~= Seq::<char>::empty());
            assert(spec_parse_rem(Seq::<char>::empty(), name, acc) == spec_flush(name, acc));
            assert(spec_fold_insert(acc2, v2) == acc2);
        } else {
            let rest = spec_rest_join(v2);
            assert(rest =~= seq![' '] + spec_name(v2[0]) + spec_rest_join(v2.drop_first()));
            assert(rest[0] == ' ');
            assert(rest.drop_first() =~= spec_name(v2[0]) + spec_rest_join(v2.drop_first()));
            assert(rest.drop_first() =~= spec_join(v2));
            lemma_parse_join(v2, acc2);
        }
    }
}

/// Folding a sequence that avoids the wildcard into a wildcard-free
/// accumulator is plain set union.
proof fn lemma_fold_insert_union(acc: Set<Scope>, v: Seq<Scope>)
    requires
        !acc.contains(Scope::All),
        !v.contains(Scope::All),
    ensures
        spec_fold_insert(acc, v) =~= acc + v.to_set(),
    decreases v.len(),
{
    if v.len() == 0 {
        assert(v.to_set() =~= Set::<Scope>::empty());
    } else {
        assert(v[0] != Scope::All) by {
            assert(v.contains(v[0]) == (v.to_set().contains(v[0])));
        }
        let acc2 = spec_insert(acc, v[0]);
        assert(acc2 == acc.insert(v[0]));
        assert(!v.drop_first().contains(Scope::All)) by {
            if v.drop_first().contains(Scope::All) {
                let k = choose|k: int|
                    0 <= k < v.drop_first().len() && v.drop_first()[k] == Scope::All;
                assert(v[k + 1] == Scope::All);
            }
        }
        lemma_fold_insert_union(acc2, v.drop_first());
        assert forall|x: Scope| v.to_set().contains(x) <==> (x == v[0] || v.drop_first().to_set()
            .contains(x)) by {
            if v.contains(x) {
                let k = choose|k: int| 0 <= k < v.len() && v[k] == x;
                if k > 0 {
                    assert(v.drop_first()[k - 1] == x);
                }
            }
            if v.drop_first().contains(x) {
                let k = choose|k: int| 0 <= k < v.drop_first().len() && v.drop_first()[k] == x;
                assert(v[k + 1] == x);
            }
        }
    }
}

/// Round trip: parsing the canonical serialization of a well-formed scope
/// set yields exactly the set's members.
pub proof fn lemma_scope_string_round_trip(s: &ScopeSet)
    requires
        s.well_formed(),
    ensures
        spec_parse_scopes(spec_join(s.to_seq())) == Some(s@),
{
    let v = s.to_seq();
    lemma_parse_join(v, Set::<Scope>::empty());
    s.lemma_seq_set();
    if v.contains(Scope::All) {
        assert(v.len() == 1);
        assert(v[0] == Scope::All);
        assert(v.drop_first() =~= Seq::<Scope>::empty());
        assert(spec_fold_insert(Set::<Scope>::empty(), v) == spec_fold_insert(
            spec_insert(Set::<Scope>::empty(), Scope::All),
            v.drop_first(),
        ));
        assert(spec_fold_insert(spec_insert(Set::<Scope>::empty(), Scope::All), v.drop_first())
            == spec_insert(Set::<Scope>::empty(), Scope::All));
        assert(spec_fold_insert(Set::<Scope>::empty(), v) =~= Set::empty().insert(Scope::All));
        assert(v.to_set() =~= Set::empty().insert(Scope::All)) by {
            assert(v.to_set().contains(Scope::All));
            assert forall|x: Scope| v.to_set().contains(x) implies x == Scope::All by {
                let k = choose|k: int| 0 <= k < v.len() && v[k] == x;
                assert(k == 0);
            }
        }
    } else {
        lemma_fold_insert_union(Set::<Scope>::empty(), v);
        assert(spec_fold_insert(Set::empty(), v) =~= v.to_set());
    }
    assert(spec_fold_insert(Set::empty(), v) == s@);
}

/// Compares a vector of characters with a string slice.
fn chars_eq(v: &Vec<char>, s: &str) -> (r: bool)
    ensures
        r == (v@ == s@),
{
    let n = v.len();
    if n != s.unicode_len() {
        return false;
    }
    let mut i: usize = 0;
    while i < n
        invariant
            n == v@.len(),
            n == s@.len(),
            0 <= i <= n,
            forall|j: int| 0 <= j < i ==> v@[j] == s@[j],
        decreases n - i,
    {
        if v[i] != s.get_char(i) {
            return false;
        }
        i += 1;
    }
    proof {
        assert(v@ =~= s@);
    }
    true
}

} // verus!
