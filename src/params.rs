//! The parameters of a query string. Each key has one slot, so a key is
//! set at most once, and the parameters always render in the fixed order
//! of the keys: two queries with the same parameters are the same value,
//! whatever order their setters were called in.

use vstd::prelude::*;
use vstd::string::*;

verus! {

/// A query-string parameter name. The order of declaration is the order
/// in which parameters render.
#[derive(Clone, Copy, Debug, PartialEq, Eq, Structural)]
pub enum QueryKey {
    Id,
    Sku,
    Team,
    Season,
    Start,
    End,
    Level,
    MyEvents,
    EventType,
    Number,
    Registered,
    Grade,
    Country,
    MyTeams,
    SkillType,
    Winner,
    Round,
    Instance,
    Matchnum,
    Rank,
    Program,
    Event,
    Active,
    Page,
    PerPage,
}

/// The number of keys.
pub const KEY_COUNT: usize = 25;

/// The name of a key as it stands in a query string (brackets
/// percent-encoded).
pub open spec fn key_name(k: QueryKey) -> Seq<char> {
    match k {
        QueryKey::Id => "id%5B%5D"@,
        QueryKey::Sku => "sku%5B%5D"@,
        QueryKey::Team => "team%5B%5D"@,
        QueryKey::Season => "season%5B%5D"@,
        QueryKey::Start => "start"@,
        QueryKey::End => "end"@,
        QueryKey::Level => "level%5B%5D"@,
        QueryKey::MyEvents => "my_events"@,
        QueryKey::EventType => "event_type%5B%5D"@,
        QueryKey::Number => "number%5B%5D"@,
        QueryKey::Registered => "registered"@,
        QueryKey::Grade => "grade%5B%5D"@,
        QueryKey::Country => "country%5B%5D"@,
        QueryKey::MyTeams => "myTeams"@,
        QueryKey::SkillType => "type%5B%5D"@,
        QueryKey::Winner => "winner%5B%5D"@,
        QueryKey::Round => "round%5B%5D"@,
        QueryKey::Instance => "instance%5B%5D"@,
        QueryKey::Matchnum => "matchnum%5B%5D"@,
        QueryKey::Rank => "rank%5B%5D"@,
        QueryKey::Program => "program%5B%5D"@,
        QueryKey::Event => "event%5B%5D"@,
        QueryKey::Active => "active"@,
        QueryKey::Page => "page"@,
        QueryKey::PerPage => "per_page"@,
    }
}

/// The position of a key in the order of declaration.
pub open spec fn key_rank(k: QueryKey) -> int {
    match k {
        QueryKey::Id => 0,
        QueryKey::Sku => 1,
        QueryKey::Team => 2,
        QueryKey::Season => 3,
        QueryKey::Start => 4,
        QueryKey::End => 5,
        QueryKey::Level => 6,
        QueryKey::MyEvents => 7,
        QueryKey::EventType => 8,
        QueryKey::Number => 9,
        QueryKey::Registered => 10,
        QueryKey::Grade => 11,
        QueryKey::Country => 12,
        QueryKey::MyTeams => 13,
        QueryKey::SkillType => 14,
        QueryKey::Winner => 15,
        QueryKey::Round => 16,
        QueryKey::Instance => 17,
        QueryKey::Matchnum => 18,
        QueryKey::Rank => 19,
        QueryKey::Program => 20,
        QueryKey::Event => 21,
        QueryKey::Active => 22,
        QueryKey::Page => 23,
        QueryKey::PerPage => 24,
    }
}

/// The key at position `i` of the order of declaration (`i < KEY_COUNT`).
pub open spec fn key_at(i: int) -> QueryKey {
    if i == 0 {
        QueryKey::Id
    } else     if i == 1 {
        QueryKey::Sku
    } else     if i == 2 {
        QueryKey::Team
    } else     if i == 3 {
        QueryKey::Season
    } else     if i == 4 {
        QueryKey::Start
    } else     if i == 5 {
        QueryKey::End
    } else     if i == 6 {
        QueryKey::Level
    } else     if i == 7 {
        QueryKey::MyEvents
    } else     if i == 8 {
        QueryKey::EventType
    } else     if i == 9 {
        QueryKey::Number
    } else     if i == 10 {
        QueryKey::Registered
    } else     if i == 11 {
        QueryKey::Grade
    } else     if i == 12 {
        QueryKey::Country
    } else     if i == 13 {
        QueryKey::MyTeams
    } else     if i == 14 {
        QueryKey::SkillType
    } else     if i == 15 {
        QueryKey::Winner
    } else     if i == 16 {
        QueryKey::Round
    } else     if i == 17 {
        QueryKey::Instance
    } else     if i == 18 {
        QueryKey::Matchnum
    } else     if i == 19 {
        QueryKey::Rank
    } else     if i == 20 {
        QueryKey::Program
    } else     if i == 21 {
        QueryKey::Event
    } else     if i == 22 {
        QueryKey::Active
    } else     if i == 23 {
        QueryKey::Page
    } else {
        QueryKey::PerPage
    }
}

impl QueryKey {
    /// The key's name in a query string.
    pub fn name(&self) -> (r: &'static str)
        ensures
            r@ == key_name(*self),
    {
        match self {
            QueryKey::Id => "id%5B%5D",
            QueryKey::Sku => "sku%5B%5D",
            QueryKey::Team => "team%5B%5D",
            QueryKey::Season => "season%5B%5D",
            QueryKey::Start => "start",
            QueryKey::End => "end",
            QueryKey::Level => "level%5B%5D",
            QueryKey::MyEvents => "my_events",
            QueryKey::EventType => "event_type%5B%5D",
            QueryKey::Number => "number%5B%5D",
            QueryKey::Registered => "registered",
            QueryKey::Grade => "grade%5B%5D",
            QueryKey::Country => "country%5B%5D",
            QueryKey::MyTeams => "myTeams",
            QueryKey::SkillType => "type%5B%5D",
            QueryKey::Winner => "winner%5B%5D",
            QueryKey::Round => "round%5B%5D",
            QueryKey::Instance => "instance%5B%5D",
            QueryKey::Matchnum => "matchnum%5B%5D",
            QueryKey::Rank => "rank%5B%5D",
            QueryKey::Program => "program%5B%5D",
            QueryKey::Event => "event%5B%5D",
            QueryKey::Active => "active",
            QueryKey::Page => "page",
            QueryKey::PerPage => "per_page",
        }
    }

    /// The key's position in the order of declaration.
    pub fn rank(&self) -> (r: usize)
        ensures
            r as int == key_rank(*self),
            r < KEY_COUNT,
    {
        match self {
            QueryKey::Id => 0,
            QueryKey::Sku => 1,
            QueryKey::Team => 2,
            QueryKey::Season => 3,
            QueryKey::Start => 4,
            QueryKey::End => 5,
            QueryKey::Level => 6,
            QueryKey::MyEvents => 7,
            QueryKey::EventType => 8,
            QueryKey::Number => 9,
            QueryKey::Registered => 10,
            QueryKey::Grade => 11,
            QueryKey::Country => 12,
            QueryKey::MyTeams => 13,
            QueryKey::SkillType => 14,
            QueryKey::Winner => 15,
            QueryKey::Round => 16,
            QueryKey::Instance => 17,
            QueryKey::Matchnum => 18,
            QueryKey::Rank => 19,
            QueryKey::Program => 20,
            QueryKey::Event => 21,
            QueryKey::Active => 22,
            QueryKey::Page => 23,
            QueryKey::PerPage => 24,
        }
    }

    /// The key at position `i` of the order of declaration.
    pub fn at(i: usize) -> (r: QueryKey)
        requires
            i < KEY_COUNT,
        ensures
            r == key_at(i as int),
            key_rank(r) == i,
    {
        match i {
            0 => QueryKey::Id,
            1 => QueryKey::Sku,
            2 => QueryKey::Team,
            3 => QueryKey::Season,
            4 => QueryKey::Start,
            5 => QueryKey::End,
            6 => QueryKey::Level,
            7 => QueryKey::MyEvents,
            8 => QueryKey::EventType,
            9 => QueryKey::Number,
            10 => QueryKey::Registered,
            11 => QueryKey::Grade,
            12 => QueryKey::Country,
            13 => QueryKey::MyTeams,
            14 => QueryKey::SkillType,
            15 => QueryKey::Winner,
            16 => QueryKey::Round,
            17 => QueryKey::Instance,
            18 => QueryKey::Matchnum,
            19 => QueryKey::Rank,
            20 => QueryKey::Program,
            21 => QueryKey::Event,
            22 => QueryKey::Active,
            23 => QueryKey::Page,
            _ => QueryKey::PerPage,
        }
    }
}

/// The abstract parameters: slot `key_rank(k)` holds the value of key `k`,
/// if it is set. Every query's view has `KEY_COUNT` slots.
pub type ParamsView = Seq<Option<Seq<char>>>;

/// No parameter set.
pub open spec fn no_params() -> ParamsView {
    Seq::new(KEY_COUNT as nat, |i: int| None::<Seq<char>>)
}

/// The parameters with key `k` set to `v`, replacing any earlier value.
pub open spec fn with_entry(s: ParamsView, k: QueryKey, v: Seq<char>) -> ParamsView {
    s.update(key_rank(k), Some(v))
}

/// The parameters that are set, as key/value pairs in slot order.
pub open spec fn pairs(s: ParamsView) -> Seq<(QueryKey, Seq<char>)>
    decreases s.len(),
{
    if s.len() == 0 {
        Seq::empty()
    } else {
        match s.last() {
            Some(v) => pairs(s.drop_last()).push((key_at(s.len() - 1), v)),
            None => pairs(s.drop_last()),
        }
    }
}

/// No key appears twice.
pub open spec fn keys_unique(p: Seq<(QueryKey, Seq<char>)>) -> bool {
    forall|i: int, j: int| 0 <= i < j < p.len() ==> (#[trigger] p[i]).0 != (#[trigger] p[j]).0
}

/// `key=value` for one pair.
pub open spec fn pair_text(e: (QueryKey, Seq<char>)) -> Seq<char> {
    key_name(e.0) + "="@ + e.1
}

/// A list of pairs as a query string: empty for no pairs, else `?`
/// followed by the pairs joined with `&`.
pub open spec fn render_pairs(p: Seq<(QueryKey, Seq<char>)>) -> Seq<char>
    decreases p.len(),
{
    if p.len() == 0 {
        Seq::empty()
    } else if p.len() == 1 {
        "?"@ + pair_text(p[0])
    } else {
        render_pairs(p.drop_last()) + "&"@ + pair_text(p.last())
    }
}

/// The query string of the parameters: the set ones, in key order.
pub open spec fn render(s: ParamsView) -> Seq<char> {
    render_pairs(pairs(s))
}

proof fn lemma_rank_of_at(i: int)
    requires
        0 <= i < KEY_COUNT,
    ensures
        key_rank(key_at(i)) == i,
{
}

proof fn lemma_pairs_ranked(s: ParamsView)
    requires
        s.len() <= KEY_COUNT,
    ensures
        forall|i: int|
            0 <= i < pairs(s).len() ==> 0 <= #[trigger] key_rank(pairs(s)[i].0) < s.len(),
        forall|i: int, j: int|
            0 <= i < j < pairs(s).len() ==> key_rank(#[trigger] pairs(s)[i].0) < key_rank(
                #[trigger] pairs(s)[j].0,
            ),
    decreases s.len(),
{
    if s.len() > 0 {
        let t = s.drop_last();
        lemma_pairs_ranked(t);
        lemma_rank_of_at(s.len() - 1);
        let p = pairs(t);
        if s.last() is Some {
            assert(pairs(s) == p.push((key_at(s.len() - 1), s.last()->0)));
            assert forall|i: int| 0 <= i < p.len() implies pairs(s)[i] == p[i] by {}
        } else {
            assert(pairs(s) == p);
        }
    }
}

/// Whatever the parameters, each key occurs at most once among the pairs
/// that render.
pub proof fn lemma_keys_unique(s: ParamsView)
    requires
        s.len() == KEY_COUNT,
    ensures
        keys_unique(pairs(s)),
{
    lemma_pairs_ranked(s);
}

/// Setting two different keys gives the same parameters in either order.
pub proof fn lemma_setters_commute(
    s: ParamsView,
    k1: QueryKey,
    a: Seq<char>,
    k2: QueryKey,
    b: Seq<char>,
)
    requires
        s.len() == KEY_COUNT,
        k1 != k2,
    ensures
        with_entry(with_entry(s, k1, a), k2, b) == with_entry(with_entry(s, k2, b), k1, a),
{
    assert(key_rank(k1) != key_rank(k2));
    assert(with_entry(with_entry(s, k1, a), k2, b) =~= with_entry(with_entry(s, k2, b), k1, a));
}

/// Setting a key twice leaves the second value.
pub proof fn lemma_with_entry_twice(s: ParamsView, k: QueryKey, a: Seq<char>, b: Seq<char>)
    requires
        s.len() == KEY_COUNT,
    ensures
        with_entry(with_entry(s, k, a), k, b) == with_entry(s, k, b),
{
    assert(with_entry(with_entry(s, k, a), k, b) =~= with_entry(s, k, b));
}

/// The view of one slot.
pub open spec fn slot_text(o: Option<String>) -> Option<Seq<char>> {
    match o {
        Some(v) => Some(v@),
        None => None,
    }
}

/// The parameters of a query: one slot per key, in key order. Every value
/// has `KEY_COUNT` slots, from `new` on.
#[derive(Clone, Debug, PartialEq)]
pub struct QueryParams {
    slots: Vec<Option<String>>,
}

impl View for QueryParams {
    type V = ParamsView;

    closed spec fn view(&self) -> ParamsView {
        Seq::new(
            KEY_COUNT as nat,
            |i: int|
                if i < self.slots@.len() {
                    slot_text(self.slots@[i])
                } else {
                    None
                },
        )
    }
}

/// Every view of parameters has one slot per key.
pub proof fn lemma_params_len(p: QueryParams)
    ensures
        p@.len() == KEY_COUNT,
{
}

impl QueryParams {
    /// No parameters.
    pub fn new() -> (r: Self)
        ensures
            r@ == no_params(),
            keys_unique(pairs(r@)),
    {
        let mut slots: Vec<Option<String>> = Vec::new();
        while slots.len() < KEY_COUNT
            invariant
                slots@.len() <= KEY_COUNT,
                forall|i: int| 0 <= i < slots@.len() ==> (#[trigger] slots@[i]) is None,
            decreases KEY_COUNT - slots@.len(),
        {
            slots.push(None);
        }
        let r = QueryParams { slots };
        assert(r@ =~= no_params());
        proof {
            lemma_keys_unique(r@);
        }
        r
    }

    /// The parameters with `key` set to `value`.
    pub fn with(self, key: QueryKey, value: String) -> (r: Self)
        ensures
            r@ == with_entry(self@, key, value@),
            keys_unique(pairs(r@)),
    {
        let ghost old_view = self@;
        let mut slots = self.slots;
        let ghost value_view = value@;
        let rank = key.rank();
        while slots.len() <= rank
            invariant
                rank < KEY_COUNT,
                forall|i: int|
                    0 <= i < KEY_COUNT ==> old_view[i] == (if i < slots@.len() {
                        slot_text(slots@[i])
                    } else {
                        None
                    }),
            decreases KEY_COUNT - slots@.len(),
        {
            slots.push(None);
        }
        slots.set(rank, Some(value));
        let r = QueryParams { slots };
        assert(r@ =~= with_entry(old_view, key, value_view));
        proof {
            lemma_keys_unique(r@);
        }
        r
    }

    /// The query string of these parameters.
    pub fn render(&self) -> (r: String)
        ensures
            r@ == render(self@),
    {
        let mut out = String::new();
        let mut any = false;
        let mut i: usize = 0;
        while i < KEY_COUNT
            invariant
                i <= KEY_COUNT,
                any == (pairs(self@.take(i as int)).len() > 0),
                out@ == render(self@.take(i as int)),
            decreases KEY_COUNT - i,
        {
            let ghost before = self@.take(i as int);
            let ghost after = self@.take(i as int + 1);
            assert(after.drop_last() =~= before);
            if i >= self.slots.len() {
                assert(after.last() is None);
                assert(pairs(after) == pairs(before));
                i = i + 1;
                continue;
            }
            assert(after.last() == slot_text(self.slots@[i as int]));
            match &self.slots[i] {
                Some(v) => {
                    if any {
                        out.append("&");
                    } else {
                        out.append("?");
                    }
                    let key = QueryKey::at(i);
                    out.append(key.name());
                    out.append("=");
                    out.append(v.as_str());
                    any = true;
                    proof {
                        let p = pairs(after);
                        assert(p.drop_last() =~= pairs(before));
                        assert(p.last() == (key_at(i as int), v@));
                        if pairs(before).len() == 0 {
                            assert(p.len() == 1);
                            assert(p[0] == p.last());
                        }
                    }
                },
                None => {
                    assert(pairs(after) == pairs(before));
                },
            }
            i = i + 1;
        }
        assert(self@.take(KEY_COUNT as int) =~= self@);
        out
    }
}

} // verus!
