//! The agent's data: configuration, observations, actions and records.
//!
//! Every binary64 quantity is held as its encoding (see `binary64`).
use vstd::prelude::*;

use crate::binary64::{spec_eq, Bits};
use vstd::std_specs::cmp::PartialEqSpecImpl;
use crate::decimal::{decimal, push_decimal};
use crate::phase::Phase;

verus! {

/// The identity of an agent.
pub type AgentId = String;

/// The text of each string of a sequence.
pub open spec fn texts(v: Seq<String>) -> Seq<Seq<char>> {
    v.map_values(|s: String| s@)
}

/// A copy of a vector of plain values.
pub fn copy_vec<T: Copy>(v: &Vec<T>) -> (r: Vec<T>)
    ensures
        r@ == v@,
{
    let mut r: Vec<T> = Vec::new();
    let mut i: usize = 0;
    while i < v.len()
        invariant
            i <= v.len(),
            r@ == v@.subrange(0, i as int),
        decreases v.len() - i,
    {
        r.push(v[i]);
        i = i + 1;
    }
    assert(r@ == v@);
    r
}

/// A copy of a vector of strings.
pub fn copy_strings(v: &Vec<String>) -> (r: Vec<String>)
    ensures
        r@ == v@,
        texts(r@) == texts(v@),
{
    let mut r: Vec<String> = Vec::new();
    let mut i: usize = 0;
    while i < v.len()
        invariant
            i <= v.len(),
            r@ == v@.subrange(0, i as int),
        decreases v.len() - i,
    {
        r.push(v[i].clone());
        i = i + 1;
    }
    assert(r@ == v@);
    r
}

/// A named limit on the state values.
///
/// The derived `==` compares binary64 quantities by their encodings (`0.0`
/// and `-0.0` differ, a NaN equals itself).
#[derive(Debug, PartialEq)]
pub struct Constraint {
    pub name: String,
    /// A human-readable description of the predicate
    pub description: String,
    /// Threshold above which the constraint is considered violated
    pub threshold: Bits,
}

pub struct ConstraintView {
    pub name: Seq<char>,
    pub description: Seq<char>,
    pub threshold: Bits,
}

impl View for Constraint {
    type V = ConstraintView;

    open spec fn view(&self) -> ConstraintView {
        ConstraintView { name: self.name@, description: self.description@, threshold: self.threshold }
    }
}

impl Clone for Constraint {
    fn clone(&self) -> (r: Self)
        ensures
            r@ == self@,
    {
        Constraint {
            name: self.name.clone(),
            description: self.description.clone(),
            threshold: self.threshold,
        }
    }
}

/// The views of a sequence of constraints.
pub open spec fn constraints_view(v: Seq<Constraint>) -> Seq<ConstraintView> {
    v.map_values(|c: Constraint| c@)
}

/// A direction of travel and the names it applies to.
///
/// `==` compares the direction component by component as IEEE-754 numbers
/// (`0.0 == -0.0`, a NaN equals nothing) and the scope by text.
#[derive(Debug)]
pub struct Heading {
    pub direction: Vec<Bits>,
    pub scope: Vec<String>,
}

pub struct HeadingView {
    pub direction: Seq<Bits>,
    pub scope: Seq<Seq<char>>,
}

impl View for Heading {
    type V = HeadingView;

    open spec fn view(&self) -> HeadingView {
        HeadingView { direction: self.direction@, scope: texts(self.scope@) }
    }
}

impl Clone for Heading {
    fn clone(&self) -> (r: Self)
        ensures
            r@ == self@,
    {
        Heading { direction: copy_vec(&self.direction), scope: copy_strings(&self.scope) }
    }
}

/// Two headings are equal when their directions are equal component by
/// component as IEEE-754 numbers and their scopes hold the same texts.
pub open spec fn heading_eq(a: HeadingView, b: HeadingView) -> bool {
    &&& a.direction.len() == b.direction.len()
    &&& forall|i: int| 0 <= i < a.direction.len() ==> spec_eq(#[trigger] a.direction[i], b.direction[i])
    &&& a.scope == b.scope
}

impl PartialEq for Heading {
    fn eq(&self, other: &Self) -> (r: bool) {
        if self.direction.len() != other.direction.len() || self.scope.len() != other.scope.len() {
            proof {
                if self.scope.len() != other.scope.len() {
                    assert(texts(self.scope@).len() != texts(other.scope@).len());
                }
            }
            return false;
        }
        let mut i: usize = 0;
        while i < self.direction.len()
            invariant
                i <= self.direction.len(),
                self.direction.len() == other.direction.len(),
                forall|j: int| 0 <= j < i ==> spec_eq(#[trigger] self.direction@[j], other.direction@[j]),
            decreases self.direction.len() - i,
        {
            if !crate::binary64::eq(self.direction[i], other.direction[i]) {
                return false;
            }
            i = i + 1;
        }
        let mut k: usize = 0;
        while k < self.scope.len()
            invariant
                k <= self.scope.len(),
                self.scope.len() == other.scope.len(),
                forall|j: int| 0 <= j < k ==> #[trigger] self.scope@[j]@ == other.scope@[j]@,
            decreases self.scope.len() - k,
        {
            if self.scope[k] != other.scope[k] {
                assert(texts(self.scope@)[k as int] != texts(other.scope@)[k as int]);
                return false;
            }
            k = k + 1;
        }
        assert(texts(self.scope@) =~= texts(other.scope@));
        true
    }
}

impl PartialEqSpecImpl for Heading {
    open spec fn obeys_eq_spec() -> bool {
        true
    }

    open spec fn eq_spec(&self, other: &Heading) -> bool {
        heading_eq(self@, other@)
    }
}

/// The configuration an agent is commissioned with.
#[derive(Debug)]
pub struct AgentConfig {
    pub id: AgentId,
    pub keel_date: u64,
    pub constraints: Vec<Constraint>,
    pub heading: Option<Heading>,
    /// Reserved; not read by the loop.
    pub coupling: Bits,
    /// Reserved; not read by the loop.
    pub gain: Bits,
}

pub struct AgentConfigView {
    pub id: Seq<char>,
    pub keel_date: u64,
    pub constraints: Seq<ConstraintView>,
    pub heading: Option<HeadingView>,
    pub coupling: Bits,
    pub gain: Bits,
}

/// The view of an optional heading.
pub open spec fn heading_view(h: Option<Heading>) -> Option<HeadingView> {
    match h {
        Some(h) => Some(h@),
        None => None,
    }
}

impl View for AgentConfig {
    type V = AgentConfigView;

    open spec fn view(&self) -> AgentConfigView {
        AgentConfigView {
            id: self.id@,
            keel_date: self.keel_date,
            constraints: constraints_view(self.constraints@),
            heading: heading_view(self.heading),
            coupling: self.coupling,
            gain: self.gain,
        }
    }
}

impl Clone for AgentConfig {
    fn clone(&self) -> (r: Self)
        ensures
            r@ == self@,
    {
        let mut constraints: Vec<Constraint> = Vec::new();
        let mut i: usize = 0;
        while i < self.constraints.len()
            invariant
                i <= self.constraints.len(),
                constraints@.len() == i,
                forall|j: int| 0 <= j < i ==> #[trigger] constraints@[j]@ == self.constraints@[j]@,
            decreases self.constraints.len() - i,
        {
            constraints.push(self.constraints[i].clone());
            i = i + 1;
        }
        assert(constraints_view(constraints@) == constraints_view(self.constraints@));
        let heading = match &self.heading {
            Some(h) => Some(h.clone()),
            None => None,
        };
        AgentConfig {
            id: self.id.clone(),
            keel_date: self.keel_date,
            constraints,
            heading,
            coupling: self.coupling,
            gain: self.gain,
        }
    }
}

/// A state vector: values, when it was taken, and its sign pattern.
///
/// The derived `==` compares binary64 quantities by their encodings (`0.0`
/// and `-0.0` differ, a NaN equals itself).
#[derive(Debug, PartialEq)]
pub struct State {
    pub values: Vec<Bits>,
    pub timestamp: u64,
    pub sign_pattern: Vec<i8>,
}

pub struct StateView {
    pub values: Seq<Bits>,
    pub timestamp: u64,
    pub sign_pattern: Seq<i8>,
}

impl View for State {
    type V = StateView;

    open spec fn view(&self) -> StateView {
        StateView { values: self.values@, timestamp: self.timestamp, sign_pattern: self.sign_pattern@ }
    }
}

impl Clone for State {
    fn clone(&self) -> (r: Self)
        ensures
            r@ == self@,
    {
        State {
            values: copy_vec(&self.values),
            timestamp: self.timestamp,
            sign_pattern: copy_vec(&self.sign_pattern),
        }
    }
}

/// A peer's state as seen from outside.
///
/// The derived `==` compares binary64 quantities by their encodings (`0.0`
/// and `-0.0` differ, a NaN equals itself).
#[derive(Debug, PartialEq)]
pub struct Observation {
    pub from: AgentId,
    pub state: State,
    /// Rate of bearing change; values < 0.01 indicate a collision course
    pub bearing_rate: Bits,
}

pub struct ObservationView {
    pub from: Seq<char>,
    pub state: StateView,
    pub bearing_rate: Bits,
}

impl View for Observation {
    type V = ObservationView;

    open spec fn view(&self) -> ObservationView {
        ObservationView { from: self.from@, state: self.state@, bearing_rate: self.bearing_rate }
    }
}

impl Clone for Observation {
    fn clone(&self) -> (r: Self)
        ensures
            r@ == self@,
    {
        Observation { from: self.from.clone(), state: self.state.clone(), bearing_rate: self.bearing_rate }
    }
}

/// The views of a sequence of observations.
pub open spec fn observations_view(v: Seq<Observation>) -> Seq<ObservationView> {
    v.map_values(|o: Observation| o@)
}

/// The view of an optional observation.
pub open spec fn observation_view(o: Option<Observation>) -> Option<ObservationView> {
    match o {
        Some(o) => Some(o@),
        None => None,
    }
}

/// A named, versioned part of the agent.
#[derive(Debug, PartialEq)]
pub struct Component {
    pub name: String,
    pub version: String,
}

pub struct ComponentView {
    pub name: Seq<char>,
    pub version: Seq<char>,
}

impl View for Component {
    type V = ComponentView;

    open spec fn view(&self) -> ComponentView {
        ComponentView { name: self.name@, version: self.version@ }
    }
}

impl Clone for Component {
    fn clone(&self) -> (r: Self)
        ensures
            r@ == self@,
    {
        Component { name: self.name.clone(), version: self.version.clone() }
    }
}

/// A sign-pattern broadcast message used for inter-agent coordination
#[derive(Debug, PartialEq)]
pub struct SignPattern(pub Vec<i8>);

impl View for SignPattern {
    type V = Seq<i8>;

    open spec fn view(&self) -> Seq<i8> {
        self.0@
    }
}

impl Clone for SignPattern {
    fn clone(&self) -> (r: Self)
        ensures
            r@ == self@,
    {
        SignPattern(copy_vec(&self.0))
    }
}

/// What the agent does in a tick.
///
/// `==` compares the same variants field by field; heading directions as
/// IEEE-754 numbers (see `Heading`).
#[derive(Debug)]
pub enum Action {
    Hold,
    ChangeHeading(Heading),
    Refit(Component),
    Prune { target: String, reason: String },
    Broadcast(SignPattern),
}

pub enum ActionView {
    Hold,
    ChangeHeading(HeadingView),
    Refit(ComponentView),
    Prune { target: Seq<char>, reason: Seq<char> },
    Broadcast(Seq<i8>),
}

impl View for Action {
    type V = ActionView;

    open spec fn view(&self) -> ActionView {
        match self {
            Action::Hold => ActionView::Hold,
            Action::ChangeHeading(h) => ActionView::ChangeHeading(h@),
            Action::Refit(c) => ActionView::Refit(c@),
            Action::Prune { target, reason } => ActionView::Prune { target: target@, reason: reason@ },
            Action::Broadcast(p) => ActionView::Broadcast(p@),
        }
    }
}

impl Clone for Action {
    fn clone(&self) -> (r: Self)
        ensures
            r@ == self@,
    {
        match self {
            Action::Hold => Action::Hold,
            Action::ChangeHeading(h) => Action::ChangeHeading(h.clone()),
            Action::Refit(c) => Action::Refit(c.clone()),
            Action::Prune { target, reason } => Action::Prune { target: target.clone(), reason: reason.clone() },
            Action::Broadcast(p) => Action::Broadcast(p.clone()),
        }
    }
}

/// The decimal text of a sign: a minus sign for a negative one, then its magnitude.
pub open spec fn sign_text(s: i8) -> Seq<char> {
    if s < 0 {
        "-"@ + decimal((-s) as nat)
    } else {
        decimal(s as nat)
    }
}

/// The signs of a pattern separated by `", "`.
pub open spec fn signs_text(p: Seq<i8>) -> Seq<char>
    decreases p.len(),
{
    if p.len() == 0 {
        Seq::empty()
    } else if p.len() == 1 {
        sign_text(p[0])
    } else {
        signs_text(p.drop_last()) + ", "@ + sign_text(p.last())
    }
}

/// The text of an action, where it holds no binary64 quantity: `Hold`,
/// `Refit(name:version)`, `Prune(target: reason)`, `Broadcast([s1, s2, ...])`.
/// A heading change has none here.
pub open spec fn action_text(a: ActionView) -> Option<Seq<char>> {
    match a {
        ActionView::Hold => Some("Hold"@),
        ActionView::ChangeHeading(_) => None,
        ActionView::Refit(c) => Some("Refit("@ + c.name + ":"@ + c.version + ")"@),
        ActionView::Prune { target, reason } => Some("Prune("@ + target + ": "@ + reason + ")"@),
        ActionView::Broadcast(p) => Some("Broadcast(["@ + signs_text(p) + "])"@),
    }
}

/// The view of an optional string.
pub open spec fn text_view(s: Option<String>) -> Option<Seq<char>> {
    match s {
        Some(s) => Some(s@),
        None => None,
    }
}

/// Appends the decimal text of a sign.
fn push_sign(out: &mut String, s: i8)
    ensures
        final(out)@ == old(out)@ + sign_text(s),
{
    if s < 0 {
        out.append("-");
        let magnitude: i16 = -(s as i16);
        push_decimal(out, magnitude as usize);
    } else {
        push_decimal(out, s as usize);
    }
}

impl Action {
    /// Renders the action, except a heading change, whose direction is made of
    /// binary64 numbers: that one gives `None`.
    pub fn text(&self) -> (t: Option<String>)
        ensures
            text_view(t) == action_text(self@),
    {
        match self {
            Action::Hold => Some(String::from_str("Hold")),
            Action::ChangeHeading(_) => None,
            Action::Refit(c) => {
                let mut t = String::from_str("Refit(");
                t.append(c.name.as_str());
                t.append(":");
                t.append(c.version.as_str());
                t.append(")");
                Some(t)
            },
            Action::Prune { target, reason } => {
                let mut t = String::from_str("Prune(");
                t.append(target.as_str());
                t.append(": ");
                t.append(reason.as_str());
                t.append(")");
                Some(t)
            },
            Action::Broadcast(p) => {
                let mut t = String::from_str("Broadcast([");
                let ghost start = t@;
                let mut i: usize = 0;
                while i < p.0.len()
                    invariant
                        i <= p.0.len(),
                        t@ == start + signs_text(p.0@.subrange(0, i as int)),
                    decreases p.0.len() - i,
                {
                    let ghost before = t@;
                    if i > 0 {
                        t.append(", ");
                    }
                    push_sign(&mut t, p.0[i]);
                    proof {
                        let next = p.0@.subrange(0, i + 1);
                        assert(next.drop_last() =~= p.0@.subrange(0, i as int));
                        if i == 0 {
                            assert(signs_text(p.0@.subrange(0, 0)) =~= Seq::<char>::empty());
                            assert(t@ =~= start + signs_text(next));
                        } else {
                            assert(t@ =~= start + signs_text(next));
                        }
                    }
                    i = i + 1;
                }
                assert(p.0@.subrange(0, p.0@.len() as int) =~= p.0@);
                t.append("])");
                Some(t)
            },
        }
    }
}

/// Two actions are equal when they are the same kind with equal fields;
/// headings compare as `heading_eq` does.
pub open spec fn action_eq(a: ActionView, b: ActionView) -> bool {
    match (a, b) {
        (ActionView::Hold, ActionView::Hold) => true,
        (ActionView::ChangeHeading(h1), ActionView::ChangeHeading(h2)) => heading_eq(h1, h2),
        (ActionView::Refit(c1), ActionView::Refit(c2)) => c1 == c2,
        (ActionView::Prune { target: t1, reason: r1 }, ActionView::Prune { target: t2, reason: r2 }) =>
            t1 == t2 && r1 == r2,
        (ActionView::Broadcast(p1), ActionView::Broadcast(p2)) => p1 == p2,
        _ => false,
    }
}

/// Whether two sign sequences are equal.
fn signs_equal(a: &Vec<i8>, b: &Vec<i8>) -> (r: bool)
    ensures
        r == (a@ == b@),
{
    if a.len() != b.len() {
        return false;
    }
    let mut i: usize = 0;
    while i < a.len()
        invariant
            i <= a.len(),
            a.len() == b.len(),
            forall|j: int| 0 <= j < i ==> #[trigger] a@[j] == b@[j],
        decreases a.len() - i,
    {
        if a[i] != b[i] {
            return false;
        }
        i = i + 1;
    }
    assert(a@ =~= b@);
    true
}

impl PartialEq for Action {
    fn eq(&self, other: &Self) -> (r: bool) {
        match (self, other) {
            (Action::Hold, Action::Hold) => true,
            (Action::ChangeHeading(h1), Action::ChangeHeading(h2)) => {
                let same = h1.eq(h2);
                assert(same == heading_eq(h1@, h2@));
                same
            },
            (Action::Refit(c1), Action::Refit(c2)) => {
                let same = c1.name == c2.name && c1.version == c2.version;
                assert(same == (c1@ == c2@));
                same
            },
            (Action::Prune { target: t1, reason: r1 }, Action::Prune { target: t2, reason: r2 }) => {
                let same = *t1 == *t2 && *r1 == *r2;
                assert(same == (t1@ == t2@ && r1@ == r2@));
                same
            },
            (Action::Broadcast(p1), Action::Broadcast(p2)) => signs_equal(&p1.0, &p2.0),
            _ => false,
        }
    }
}

impl PartialEqSpecImpl for Action {
    open spec fn obeys_eq_spec() -> bool {
        true
    }

    open spec fn eq_spec(&self, other: &Action) -> bool {
        action_eq(self@, other@)
    }
}

/// The views of a sequence of actions.
pub open spec fn actions_view(v: Seq<Action>) -> Seq<ActionView> {
    v.map_values(|a: Action| a@)
}

/// When the agent was laid down, and what has been refitted and pruned since.
#[derive(Debug, PartialEq)]
pub struct BuildRecord {
    pub keel_date: u64,
    pub refits: Vec<String>,
    pub prunes: Vec<(String, String)>,
}

/// The text of each pair of strings of a sequence.
pub open spec fn text_pairs(v: Seq<(String, String)>) -> Seq<(Seq<char>, Seq<char>)> {
    v.map_values(|p: (String, String)| (p.0@, p.1@))
}

impl Clone for BuildRecord {
    fn clone(&self) -> (r: Self)
        ensures
            r@ == self@,
    {
        let mut prunes: Vec<(String, String)> = Vec::new();
        let mut i: usize = 0;
        while i < self.prunes.len()
            invariant
                i <= self.prunes.len(),
                text_pairs(prunes@) == text_pairs(self.prunes@).subrange(0, i as int),
            decreases self.prunes.len() - i,
        {
            let pair = (self.prunes[i].0.clone(), self.prunes[i].1.clone());
            let ghost before = prunes@;
            prunes.push(pair);
            assert(text_pairs(prunes@) =~= text_pairs(before).push((self.prunes@[i as int].0@, self.prunes@[i as int].1@)));
            i = i + 1;
            assert(text_pairs(prunes@) =~= text_pairs(self.prunes@).subrange(0, i as int));
        }
        assert(text_pairs(self.prunes@).subrange(0, i as int) =~= text_pairs(self.prunes@));
        BuildRecord { keel_date: self.keel_date, refits: copy_strings(&self.refits), prunes }
    }
}

pub struct BuildRecordView {
    pub keel_date: u64,
    pub refits: Seq<Seq<char>>,
    pub prunes: Seq<(Seq<char>, Seq<char>)>,
}

impl View for BuildRecord {
    type V = BuildRecordView;

    open spec fn view(&self) -> BuildRecordView {
        BuildRecordView { keel_date: self.keel_date, refits: texts(self.refits@), prunes: text_pairs(self.prunes@) }
    }
}

/// One line of the agent's log: the tick, its phase, the first relevant
/// observation and the first action.
///
/// The derived `==` compares the observation as `Observation` does and the
/// action as `Action` does.
#[derive(Debug, PartialEq)]
pub struct LogEntry {
    pub tick: u64,
    pub phase: Phase,
    pub observation: Option<Observation>,
    pub action: Action,
}

pub struct LogEntryView {
    pub tick: u64,
    pub phase: Phase,
    pub observation: Option<ObservationView>,
    pub action: ActionView,
}

impl View for LogEntry {
    type V = LogEntryView;

    open spec fn view(&self) -> LogEntryView {
        LogEntryView {
            tick: self.tick,
            phase: self.phase,
            observation: observation_view(self.observation),
            action: self.action@,
        }
    }
}

impl Clone for LogEntry {
    fn clone(&self) -> (r: Self)
        ensures
            r@ == self@,
    {
        let observation = match &self.observation {
            Some(o) => Some(o.clone()),
            None => None,
        };
        LogEntry { tick: self.tick, phase: self.phase, observation, action: self.action.clone() }
    }
}

/// The views of a sequence of log entries.
pub open spec fn log_view(v: Seq<LogEntry>) -> Seq<LogEntryView> {
    v.map_values(|e: LogEntry| e@)
}

} // verus!
