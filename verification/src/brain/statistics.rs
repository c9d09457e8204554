//! Counters that a search keeps about its own progress.
use vstd::prelude::*;

verus! {

/// A snapshot of the counters of a search.
#[derive(Clone, Copy, Default, Debug, PartialEq, Eq, Structural)]
#[non_exhaustive]
pub struct Statistics {
    pub current_depth: u64,
    pub nodes_searched: u64,
    pub nodes_searched_this_depth: u64,
    pub tt_hits: u64,
}

impl Statistics {
    /// The report of the counters, one line each.
    pub open spec fn text_spec(self) -> Seq<char> {
        "current depth: "@ + crate::uci_text::decimal(self.current_depth as nat) + "\n"@
            + "nodes searched at current depth: "@ + crate::uci_text::decimal(
            self.nodes_searched_this_depth as nat,
        ) + "\n"@ + "nodes searched total: "@ + crate::uci_text::decimal(
            self.nodes_searched as nat,
        ) + "\n"@ + "transposition table hits: "@ + crate::uci_text::decimal(
            self.tt_hits as nat,
        )
    }

    pub fn to_text(&self) -> (s: String)
        ensures
            s@ == self.text_spec(),
    {
        let mut s = "current depth: ".to_owned();
        crate::uci_text::push_decimal(&mut s, self.current_depth);
        let mut s = s.concat("\nnodes searched at current depth: ");
        crate::uci_text::push_decimal(&mut s, self.nodes_searched_this_depth);
        let mut s = s.concat("\nnodes searched total: ");
        crate::uci_text::push_decimal(&mut s, self.nodes_searched);
        let mut s = s.concat("\ntransposition table hits: ");
        crate::uci_text::push_decimal(&mut s, self.tt_hits);
        proof {
            reveal_strlit("current depth: ");
            reveal_strlit("\nnodes searched at current depth: ");
            reveal_strlit("\nnodes searched total: ");
            reveal_strlit("\ntransposition table hits: ");
            reveal_strlit("\n");
            reveal_strlit("nodes searched at current depth: ");
            reveal_strlit("nodes searched total: ");
            reveal_strlit("transposition table hits: ");
        }
        assert(s@ =~= self.text_spec());
        s
    }
}

/// The counters of a search that has not started.
pub open spec fn fresh_statistics() -> Statistics {
    Statistics { current_depth: 0, nodes_searched: 0, nodes_searched_this_depth: 0, tt_hits: 0 }
}

/// What a search reports to its counters.
#[derive(Debug, Clone, Copy, PartialEq, Eq, Structural)]
pub enum StatisticsEvent {
    NodeSearched,
    DepthChanged(u64),
    TtHit,
}

/// The counters `s` after `e`: a node counts at this depth and in total, a
/// new depth starts the count of this depth over, a table hit is counted;
/// every count wraps around past `u64::MAX`.
pub open spec fn after_event(s: Statistics, e: StatisticsEvent) -> Statistics {
    match e {
        StatisticsEvent::NodeSearched => Statistics {
            nodes_searched_this_depth: s.nodes_searched_this_depth.wrapping_add(1u64),
            nodes_searched: s.nodes_searched.wrapping_add(1u64),
            ..s
        },
        StatisticsEvent::DepthChanged(d) => Statistics {
            nodes_searched_this_depth: 0,
            current_depth: d,
            ..s
        },
        StatisticsEvent::TtHit => Statistics { tt_hits: s.tt_hits.wrapping_add(1u64), ..s },
    }
}

/// The counters after the events `es`, from fresh counters.
pub open spec fn after_events(es: Seq<StatisticsEvent>) -> Statistics
    decreases es.len(),
{
    if es.len() == 0 {
        fresh_statistics()
    } else {
        after_event(after_events(es.drop_last()), es.last())
    }
}

/// How many of the events `es` are `e`.
pub open spec fn count_of(es: Seq<StatisticsEvent>, e: StatisticsEvent) -> nat
    decreases es.len(),
{
    if es.len() == 0 {
        0
    } else {
        count_of(es.drop_last(), e) + if es.last() == e {
            1nat
        } else {
            0nat
        }
    }
}

/// How many nodes were searched since the last change of depth.
pub open spec fn nodes_since_depth_change(es: Seq<StatisticsEvent>) -> nat
    decreases es.len(),
{
    if es.len() == 0 {
        0
    } else {
        match es.last() {
            StatisticsEvent::NodeSearched => nodes_since_depth_change(es.drop_last()) + 1,
            StatisticsEvent::DepthChanged(_) => 0,
            StatisticsEvent::TtHit => nodes_since_depth_change(es.drop_last()),
        }
    }
}

/// The depth of the last change of depth, 0 when there was none.
pub open spec fn last_depth(es: Seq<StatisticsEvent>) -> u64
    decreases es.len(),
{
    if es.len() == 0 {
        0
    } else {
        match es.last() {
            StatisticsEvent::DepthChanged(d) => d,
            _ => last_depth(es.drop_last()),
        }
    }
}

/// One more node counts one more at this depth and in total, when the total
/// has room and the count of this depth is at most the total.
pub proof fn law_node_searched_counts_one(s: Statistics)
    requires
        s.nodes_searched_this_depth <= s.nodes_searched < u64::MAX,
    ensures
        after_event(s, StatisticsEvent::NodeSearched).nodes_searched == s.nodes_searched + 1,
        after_event(s, StatisticsEvent::NodeSearched).nodes_searched_this_depth
            == s.nodes_searched_this_depth + 1,
        after_event(s, StatisticsEvent::NodeSearched).current_depth == s.current_depth,
        after_event(s, StatisticsEvent::NodeSearched).tt_hits == s.tt_hits,
{
}

/// Without overflow, the counters count the events since they were fresh:
/// the nodes, the table hits, the nodes since the last change of depth
/// (never more than the nodes in all) and the last depth.
pub proof fn law_counters_count_events(es: Seq<StatisticsEvent>)
    requires
        count_of(es, StatisticsEvent::NodeSearched) <= u64::MAX,
        count_of(es, StatisticsEvent::TtHit) <= u64::MAX,
    ensures
        after_events(es).nodes_searched == count_of(es, StatisticsEvent::NodeSearched),
        after_events(es).tt_hits == count_of(es, StatisticsEvent::TtHit),
        after_events(es).nodes_searched_this_depth == nodes_since_depth_change(es),
        nodes_since_depth_change(es) <= count_of(es, StatisticsEvent::NodeSearched),
        after_events(es).current_depth == last_depth(es),
    decreases es.len(),
{
    if es.len() > 0 {
        law_counters_count_events(es.drop_last());
    }
}

/// One more node, after any run of calls without overflow, counts one more
/// at this depth and in total and leaves the depth and the table hits alone:
/// the counters `after_events(es)` and those after one more
/// `NodeSearched`.
pub proof fn law_one_more_node(es: Seq<StatisticsEvent>)
    requires
        count_of(es, StatisticsEvent::NodeSearched) < u64::MAX,
        count_of(es, StatisticsEvent::TtHit) <= u64::MAX,
    ensures
        after_events(es.push(StatisticsEvent::NodeSearched)).nodes_searched
            == after_events(es).nodes_searched + 1,
        after_events(es.push(StatisticsEvent::NodeSearched)).nodes_searched_this_depth
            == after_events(es).nodes_searched_this_depth + 1,
        after_events(es.push(StatisticsEvent::NodeSearched)).current_depth
            == after_events(es).current_depth,
        after_events(es.push(StatisticsEvent::NodeSearched)).tt_hits == after_events(es).tt_hits,
{
    law_counters_count_events(es);
    assert(es.push(StatisticsEvent::NodeSearched).drop_last() =~= es);
    law_node_searched_counts_one(after_events(es));
}

/// The counters of a running search. Each counter wraps around past
/// `u64::MAX`. The holder remembers, as a ghost, the calls it has seen since
/// it was made, and its counters are always those that these calls give.
pub struct StatisticsHolder {
    stats: Statistics,
    seen: Ghost<Seq<StatisticsEvent>>,
}

impl View for StatisticsHolder {
    type V = Statistics;

    closed spec fn view(&self) -> Statistics {
        after_events(self.seen@)
    }
}

impl StatisticsHolder {
    /// The calls of `node_searched`, `depth_changed` and `tt_hit` made on
    /// this holder since `new`, in order.
    pub closed spec fn events(&self) -> Seq<StatisticsEvent> {
        self.seen@
    }

    #[verifier::type_invariant]
    spec fn counts_its_events(&self) -> bool {
        self.stats == after_events(self.seen@)
    }

    /// The counters of a holder are those that its calls give, from fresh
    /// counters.
    pub proof fn lemma_counts_events(&self)
        ensures
            self@ == after_events(self.events()),
    {
    }

    pub fn new() -> (h: StatisticsHolder)
        ensures
            h@ == fresh_statistics(),
            h.events() == Seq::<StatisticsEvent>::empty(),
    {
        StatisticsHolder {
            stats: Statistics {
                current_depth: 0,
                nodes_searched: 0,
                nodes_searched_this_depth: 0,
                tt_hits: 0,
            },
            seen: Ghost(Seq::empty()),
        }
    }

    /// Counts one more node, at this depth and in total.
    pub fn node_searched(&mut self)
        ensures
            final(self)@ == after_event(old(self)@, StatisticsEvent::NodeSearched),
            final(self).events() == old(self).events().push(StatisticsEvent::NodeSearched),
    {
        proof {
            use_type_invariant(&*self);
        }
        let ghost seen = self.seen@.push(StatisticsEvent::NodeSearched);
        assert(seen.drop_last() =~= self.seen@);
        let stats = Statistics {
            nodes_searched_this_depth: self.stats.nodes_searched_this_depth.wrapping_add(1),
            nodes_searched: self.stats.nodes_searched.wrapping_add(1),
            ..self.stats
        };
        *self = StatisticsHolder { stats, seen: Ghost(seen) };
    }

    /// The search went on to depth `new_depth`: the count of this depth starts over.
    pub fn depth_changed(&mut self, new_depth: u64)
        ensures
            final(self)@ == after_event(old(self)@, StatisticsEvent::DepthChanged(new_depth)),
            final(self).events() == old(self).events().push(
                StatisticsEvent::DepthChanged(new_depth),
            ),
    {
        proof {
            use_type_invariant(&*self);
        }
        let ghost seen = self.seen@.push(StatisticsEvent::DepthChanged(new_depth));
        assert(seen.drop_last() =~= self.seen@);
        let stats = Statistics {
            nodes_searched_this_depth: 0,
            current_depth: new_depth,
            ..self.stats
        };
        *self = StatisticsHolder { stats, seen: Ghost(seen) };
    }

    pub fn tt_hit(&mut self)
        ensures
            final(self)@ == after_event(old(self)@, StatisticsEvent::TtHit),
            final(self).events() == old(self).events().push(StatisticsEvent::TtHit),
    {
        proof {
            use_type_invariant(&*self);
        }
        let ghost seen = self.seen@.push(StatisticsEvent::TtHit);
        assert(seen.drop_last() =~= self.seen@);
        let stats = Statistics { tt_hits: self.stats.tt_hits.wrapping_add(1), ..self.stats };
        *self = StatisticsHolder { stats, seen: Ghost(seen) };
    }

    pub fn get_statistics(&self) -> (s: Statistics)
        ensures
            s == self@,
            s == after_events(self.events()),
    {
        proof {
            use_type_invariant(self);
        }
        self.stats
    }
}

impl Default for StatisticsHolder {
    fn default() -> (h: StatisticsHolder)
        ensures
            h@ == fresh_statistics(),
            h.events() == Seq::<StatisticsEvent>::empty(),
    {
        StatisticsHolder::new()
    }
}

/// Any holder, whatever calls it has seen, reports without overflow the
/// number of nodes and of table hits since it was made, the nodes since the
/// last change of depth (never more than all the nodes) and the last depth
/// set (0 when none was).
pub proof fn law_holder_counts_calls(h: &StatisticsHolder)
    requires
        count_of(h.events(), StatisticsEvent::NodeSearched) <= u64::MAX,
        count_of(h.events(), StatisticsEvent::TtHit) <= u64::MAX,
    ensures
        h@.nodes_searched == count_of(h.events(), StatisticsEvent::NodeSearched),
        h@.tt_hits == count_of(h.events(), StatisticsEvent::TtHit),
        h@.nodes_searched_this_depth == nodes_since_depth_change(h.events()),
        h@.nodes_searched_this_depth <= h@.nodes_searched,
        h@.current_depth == last_depth(h.events()),
{
    h.lemma_counts_events();
    law_counters_count_events(h.events());
}

} // verus!
