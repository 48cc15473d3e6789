//! How deep the nodes of YAML documents stand inside one another, and how many there are.

use std::collections::HashMap;

use vstd::prelude::*;
use yaml_rust::parser::{Event, Parser};
use yaml_rust::ScanError;

verus! {

broadcast use vstd::std_specs::hash::group_hash_axioms;

/// The error of a text that is no YAML, which is carried along unread.
#[verifier::external_type_specification]
#[verifier::external_body]
pub struct ExScanError(yaml_rust::ScanError);

/// An event as the parser gives it, which is only converted.
#[verifier::external_type_specification]
#[verifier::external_body]
pub struct ExEvent(yaml_rust::Event);

/// What the parser of YAML comes upon. Nodes are given with the number that a name (`&name`) has, or
/// zero.
#[derive(Debug, PartialEq, Eq, Structural, Clone, Copy)]
pub enum YamlEvent {
    /// Nothing.
    Nothing,
    /// The start of the text.
    StreamStart,
    /// The end of the text.
    StreamEnd,
    /// The start of a document.
    DocumentStart,
    /// The end of a document.
    DocumentEnd,
    /// A place where the node stands that has the number.
    Alias(usize),
    /// A node that holds no others.
    Scalar(usize),
    /// The start of a list.
    SequenceStart(usize),
    /// The end of a list.
    SequenceEnd,
    /// The start of a map.
    MappingStart(usize),
    /// The end of a map.
    MappingEnd,
}

/// What the parser of YAML comes upon in a text, if it is YAML.
pub uninterp spec fn yaml_events(text: Seq<char>) -> Option<Seq<YamlEvent>>;

/// Converts a `yaml_rust::Event` one for one, but for what a scalar says and how it is written.
/// Nothing is claimed of it by itself: [`load_events`] names what comes out.
#[verifier::external_body]
fn to_event(event: Event) -> (converted: YamlEvent) {
    match event {
        Event::Nothing => YamlEvent::Nothing,
        Event::StreamStart => YamlEvent::StreamStart,
        Event::StreamEnd => YamlEvent::StreamEnd,
        Event::DocumentStart => YamlEvent::DocumentStart,
        Event::DocumentEnd => YamlEvent::DocumentEnd,
        Event::Alias(id) => YamlEvent::Alias(id),
        Event::Scalar(_, _, id, _) => YamlEvent::Scalar(id),
        Event::SequenceStart(id) => YamlEvent::SequenceStart(id),
        Event::SequenceEnd => YamlEvent::SequenceEnd,
        Event::MappingStart(id) => YamlEvent::MappingStart(id),
        Event::MappingEnd => YamlEvent::MappingEnd,
    }
}

/// Calls `yaml_rust::parser::Parser::next` until the text ends or is refused, and converts the events
/// one for one. The contract names the events, and says that there are none to name where the text
/// is refused. The parser keeps its place in lists and maps on the heap. Nothing is said of the
/// error.
#[verifier::external_body]
pub(crate) fn load_events(text: &str) -> (events: Result<Vec<YamlEvent>, ScanError>)
    ensures
        match events {
            Ok(events) => yaml_events(text@) == Some(events@),
            Err(_) => yaml_events(text@) is None,
        },
{
    let mut parser = Parser::new(text.chars());
    let mut events = Vec::new();
    loop {
        match parser.next()?.0 {
            Event::StreamEnd => return Ok(events),
            event => events.push(to_event(event)),
        }
    }
}

/// The most levels of nodes inside one another that are loaded.
pub const MAX_LEVELS: u64 = 150;

/// The most nodes that are loaded.
pub const MAX_NODES: u64 = 50_000_000;

/// How much a node weighs.
#[derive(Debug, PartialEq, Eq, Structural, Clone, Copy)]
pub struct Weight {
    /// The number of levels of nodes inside one another, the node itself among them. No more than one
    /// over the most that are loaded is counted.
    pub levels: u64,
    /// The number of nodes, the node itself among them. No more than one over the most that are
    /// loaded is counted.
    pub nodes: u64,
}

/// A list or map that has not come to its end.
#[derive(Debug, PartialEq, Eq, Structural, Clone, Copy)]
pub struct OpenNode {
    /// The number that its name has, or zero.
    pub id: usize,
    /// What it weighs so far.
    pub weight: Weight,
}

/// What is known after some events.
#[verifier::ext_equal]
pub struct WeighingView {
    /// The lists and maps that have not come to their ends, the innermost one last.
    pub open: Seq<OpenNode>,
    /// What the named nodes weigh, by their numbers.
    pub named: Map<usize, Weight>,
    /// The levels of the deepest node so far, and the number of all nodes so far: those of the
    /// documents, and those that are kept for their names.
    pub total: Weight,
}

/// A number, or one over the limit if it is over the limit.
pub open spec fn limited(n: int, limit: u64) -> u64 {
    if n <= limit {
        n as u64
    } else {
        (limit + 1) as u64
    }
}

/// The weight of a node that holds no others.
pub open spec fn lightest() -> Weight {
    Weight { levels: 1, nodes: 1 }
}

/// The weight of two nodes side by side, the second one `deeper` levels further inside.
pub open spec fn together(weight: Weight, added: Weight, deeper: int) -> Weight {
    let levels = limited(added.levels + deeper, MAX_LEVELS);
    Weight {
        levels: if weight.levels < levels {
            levels
        } else {
            weight.levels
        },
        nodes: limited(weight.nodes + added.nodes, MAX_NODES),
    }
}

/// What is known after a node has come to its end.
pub open spec fn after_node(state: WeighingView, id: usize, weight: Weight) -> WeighingView {
    let kept = if id > 0 {
        WeighingView {
            named: state.named.insert(id, weight),
            total: together(state.total, weight, 0),
            ..state
        }
    } else {
        state
    };
    if state.open.len() == 0 {
        WeighingView { total: together(kept.total, weight, 0), ..kept }
    } else {
        let parent = state.open.last();
        WeighingView {
            open: state.open.drop_last().push(
                OpenNode { weight: together(parent.weight, weight, 1), ..parent },
            ),
            ..kept
        }
    }
}

/// What is known after an event.
pub open spec fn after_event(state: WeighingView, event: YamlEvent) -> WeighingView {
    match event {
        YamlEvent::Alias(id) => after_node(
            state,
            0,
            if state.named.contains_key(id) {
                state.named[id]
            } else {
                lightest()
            },
        ),
        YamlEvent::Scalar(id) => after_node(state, id, lightest()),
        YamlEvent::SequenceStart(id) | YamlEvent::MappingStart(id) => WeighingView {
            open: state.open.push(OpenNode { id, weight: lightest() }),
            ..state
        },
        YamlEvent::SequenceEnd | YamlEvent::MappingEnd => if state.open.len() == 0 {
            state
        } else {
            let node = state.open.last();
            after_node(
                WeighingView { open: state.open.drop_last(), ..state },
                node.id,
                node.weight,
            )
        },
        _ => state,
    }
}

/// What is known after events.
pub open spec fn weighed(events: Seq<YamlEvent>) -> WeighingView
    decreases events.len(),
{
    if events.len() == 0 {
        WeighingView {
            open: Seq::empty(),
            named: Map::empty(),
            total: Weight { levels: 0, nodes: 0 },
        }
    } else {
        after_event(weighed(events.drop_last()), events.last())
    }
}

/// Nodes do not stand too deep inside one another, and there are not too many of them.
pub open spec fn is_light(weight: Weight) -> bool {
    weight.levels <= MAX_LEVELS && weight.nodes <= MAX_NODES
}

/// The text is YAML whose nodes are not too many and do not stand too deep inside one another.
pub open spec fn is_loadable(text: Seq<char>) -> bool {
    yaml_events(text) matches Some(events) && is_light(weighed(events).total)
}

/// The text is YAML whose nodes are too many or stand too deep inside one another.
pub open spec fn is_too_heavy(text: Seq<char>) -> bool {
    yaml_events(text) matches Some(events) && !is_light(weighed(events).total)
}

fn count_up_to(n: u64, limit: u64) -> (limited_number: u64)
    requires
        limit < u64::MAX,
    ensures
        limited_number == limited(n as int, limit),
{
    if n <= limit {
        n
    } else {
        limit + 1
    }
}

fn put_together(weight: Weight, added: Weight, deeper: u64) -> (sum: Weight)
    requires
        weight.nodes <= MAX_NODES + 1,
        added.nodes <= MAX_NODES + 1,
        added.levels <= MAX_LEVELS + 1,
        deeper <= 1,
    ensures
        sum == together(weight, added, deeper as int),
{
    let levels: u64 = count_up_to(added.levels + deeper, MAX_LEVELS);
    Weight {
        levels: if weight.levels < levels {
            levels
        } else {
            weight.levels
        },
        nodes: count_up_to(weight.nodes + added.nodes, MAX_NODES),
    }
}

/// What is known of the nodes of a text while its events are gone through.
struct Weighing {
    open: Vec<OpenNode>,
    named: HashMap<usize, Weight>,
    total: Weight,
}

/// The weight is counted no further than it has to be.
spec fn is_limited(weight: Weight) -> bool {
    weight.levels <= MAX_LEVELS + 1 && weight.nodes <= MAX_NODES + 1
}

impl Weighing {
    spec fn state(&self) -> WeighingView {
        WeighingView { open: self.open@, named: self.named@, total: self.total }
    }

    spec fn stays_limited(&self) -> bool {
        &&& is_limited(self.total)
        &&& forall|i: int| 0 <= i < self.open@.len() ==> is_limited((#[trigger] self.open@[i]).weight)
        &&& forall|id: usize| self.named@.contains_key(id) ==> is_limited(#[trigger] self.named@[id])
    }

    fn end_node(&mut self, id: usize, weight: Weight)
        requires
            old(self).stays_limited(),
            is_limited(weight),
        ensures
            final(self).stays_limited(),
            final(self).state() == after_node(old(self).state(), id, weight),
    {
        if id > 0 {
            self.named.insert(id, weight);
            self.total = put_together(self.total, weight, 0);
        }
        match self.open.pop() {
            Some(parent) => {
                self.open.push(
                    OpenNode { id: parent.id, weight: put_together(parent.weight, weight, 1) },
                );
            },
            None => {
                self.total = put_together(self.total, weight, 0);
            },
        }
        assert(self.state() =~= after_node(old(self).state(), id, weight));
    }

    fn take_event(&mut self, event: YamlEvent)
        requires
            old(self).stays_limited(),
        ensures
            final(self).stays_limited(),
            final(self).state() == after_event(old(self).state(), event),
    {
        match event {
            YamlEvent::Alias(id) => {
                let weight: Weight = match self.named.get(&id) {
                    Some(weight) => *weight,
                    None => Weight { levels: 1, nodes: 1 },
                };
                self.end_node(0, weight);
            },
            YamlEvent::Scalar(id) => {
                self.end_node(id, Weight { levels: 1, nodes: 1 });
            },
            YamlEvent::SequenceStart(id) | YamlEvent::MappingStart(id) => {
                self.open.push(OpenNode { id, weight: Weight { levels: 1, nodes: 1 } });
            },
            YamlEvent::SequenceEnd | YamlEvent::MappingEnd => {
                if let Some(node) = self.open.pop() {
                    assert(self.open@ =~= old(self).open@.drop_last());
                    self.end_node(node.id, node.weight);
                }
            },
            _ => {},
        }
        assert(self.state() =~= after_event(old(self).state(), event));
    }
}

/// Find how deep nodes stand inside one another, and how many there are, with all copies of named
/// nodes.
///
/// # Arguments
///
/// * `events` - What the parser of YAML came upon.
pub fn weigh(events: &Vec<YamlEvent>) -> (weight: Weight)
    ensures
        weight == weighed(events@).total,
{
    let mut weighing = Weighing {
        open: Vec::new(),
        named: HashMap::new(),
        total: Weight { levels: 0, nodes: 0 },
    };
    let mut i: usize = 0;
    assert(weighing.state() =~= weighed(events@.take(0)));
    while i < events.len()
        invariant
            i <= events@.len(),
            weighing.stays_limited(),
            weighing.state() == weighed(events@.take(i as int)),
        decreases events@.len() - i,
    {
        assert(events@.take(i + 1).drop_last() =~= events@.take(i as int));
        weighing.take_event(events[i]);
        i += 1;
    }
    assert(events@.take(i as int) =~= events@);
    weighing.total
}

/// Can nodes of this weight be loaded?
pub fn can_load(weight: Weight) -> (loadable: bool)
    ensures
        loadable == is_light(weight),
{
    weight.levels <= MAX_LEVELS && weight.nodes <= MAX_NODES
}

/// Whether a text can be loaded.
#[derive(Debug, PartialEq)]
pub enum Loading {
    /// It can.
    Possible,
    /// Its nodes are too many, or stand too deep inside one another.
    TooHeavy,
    /// It is no YAML.
    NotYaml(ScanError),
}

/// Find whether a text can be loaded.
///
/// # Arguments
///
/// * `text` - Text to load.
pub fn check_loading(text: &str) -> (loading: Loading)
    ensures
        match loading {
            Loading::Possible => is_loadable(text@),
            Loading::TooHeavy => is_too_heavy(text@),
            Loading::NotYaml(_) => yaml_events(text@) is None,
        },
{
    match load_events(text) {
        Ok(events) => if can_load(weigh(&events)) {
            Loading::Possible
        } else {
            Loading::TooHeavy
        },
        Err(error) => Loading::NotYaml(error),
    }
}

} // verus!
