//! The event queue: registering it, polling it with a cursor that follows
//! the last event seen, and unregistering it.
use vstd::prelude::*;
use crate::text::{
    bool_text, bool_to_text, int_text, int_to_text, json_array, json_items, json_pair_array,
    json_string, json_string_array, json_strings, push_json_string, str_eq,
};
use crate::{prepared, Client, ClientView, Endpoint, Method, Pairs, PreparedRequest};

verus! {

/// `s` with `x` added at the end unless it already holds it.
pub open spec fn insert_distinct<A>(s: Seq<A>, x: A) -> Seq<A> {
    if s.contains(x) {
        s
    } else {
        s.push(x)
    }
}

/// What adding the items of `xs` one after another with
/// [`insert_distinct`] gives, starting from nothing.
pub open spec fn accumulate<A>(xs: Seq<A>) -> Seq<A>
    decreases xs.len(),
{
    if xs.len() == 0 {
        seq![]
    } else {
        insert_distinct(accumulate(xs.drop_last()), xs.last())
    }
}

/// Whether the items of `r` stand in the order in which each first occurs in
/// `xs`: every occurrence in `xs` of a later item comes after an occurrence
/// of each earlier one.
pub open spec fn in_first_seen_order<A>(r: Seq<A>, xs: Seq<A>) -> bool {
    forall|i: int, j: int, k: int|
        #![trigger r[i], r[j], xs[k]]
        0 <= i < j < r.len() && 0 <= k < xs.len() && xs[k] == r[j] ==> occurs_before(xs, k, r[i])
}

/// Whether `y` occurs in `xs` before index `k`.
pub open spec fn occurs_before<A>(xs: Seq<A>, k: int, y: A) -> bool {
    exists|m: int| 0 <= m < k && #[trigger] xs[m] == y
}

proof fn lemma_contains_push<A>(s: Seq<A>, x: A, y: A)
    ensures
        s.push(x).contains(y) <==> (s.contains(y) || y == x),
{
    let t = s.push(x);
    if t.contains(y) {
        let k = choose|k: int| 0 <= k < t.len() && t[k] == y;
        if k < s.len() {
            assert(s[k] == y);
        }
    }
    if s.contains(y) {
        let k = choose|k: int| 0 <= k < s.len() && s[k] == y;
        assert(t[k] == y);
    }
    if y == x {
        assert(t[s.len() as int] == y);
    }
}

proof fn lemma_accumulate<A>(xs: Seq<A>)
    ensures
        accumulate(xs).no_duplicates(),
        forall|x: A| accumulate(xs).contains(x) <==> xs.contains(x),
        in_first_seen_order(accumulate(xs), xs),
    decreases xs.len(),
{
    if xs.len() > 0 {
        let prev = xs.drop_last();
        let x = xs.last();
        lemma_accumulate(prev);
        let r0 = accumulate(prev);
        let r = accumulate(xs);
        assert(xs =~= prev.push(x));
        assert forall|y: A| r.contains(y) <==> xs.contains(y) by {
            lemma_contains_push(prev, x, y);
            lemma_contains_push(r0, x, y);
        }
        if !r0.contains(x) {
            assert forall|a: int, b: int| 0 <= a < r.len() && 0 <= b < r.len() && a != b implies r[a]
                != r[b] by {
                if a == r0.len() {
                    assert(b < r0.len());
                    assert(r0[b] == r[b]);
                } else if b == r0.len() {
                    assert(a < r0.len());
                    assert(r0[a] == r[a]);
                }
            }
        }
        assert forall|i: int, j: int, k: int|
            #![trigger r[i], r[j], xs[k]]
            0 <= i < j < r.len() && 0 <= k < xs.len() && xs[k] == r[j] implies occurs_before(
                xs,
                k,
                r[i],
            ) by {
            assert(i < r0.len());
            assert(r[i] == r0[i]);
            if k < prev.len() {
                assert(prev[k] == xs[k]);
                if j < r0.len() {
                    assert(r[j] == r0[j]);
                    assert(prev[k] == r0[j]);
                    assert(occurs_before(prev, k, r0[i]));
                    let m = choose|m: int| 0 <= m < k && #[trigger] prev[m] == r0[i];
                    assert(xs[m] == r[i]);
                } else {
                    assert(r[j] == x);
                    assert(prev.contains(x));
                    assert(r0.contains(x));
                }
            } else {
                assert(r0.contains(r0[i]));
                assert(prev.contains(r[i]));
                let m = choose|m: int| 0 <= m < prev.len() && prev[m] == r[i];
                assert(xs[m] == r[i]);
            }
        }
        assert(in_first_seen_order(r, xs));
    } else {
        assert(accumulate(xs).len() == 0);
        assert(in_first_seen_order(accumulate(xs), xs));
    }
}

/// Each state of `states` is the one before it with the matching item of `xs`
/// added by [`insert_distinct`], starting from nothing.
spec fn inserted_in_turn<A>(xs: Seq<A>, states: Seq<Seq<A>>) -> bool {
    &&& states.len() == xs.len() + 1
    &&& states[0] == Seq::<A>::empty()
    &&& forall|i: int| 0 <= i < xs.len() ==> #[trigger] states[i + 1] == insert_distinct(states[i], xs[i])
}

proof fn lemma_inserted_in_turn<A>(xs: Seq<A>, states: Seq<Seq<A>>)
    requires
        inserted_in_turn(xs, states),
    ensures
        states.last() == accumulate(xs),
    decreases xs.len(),
{
    if xs.len() > 0 {
        let n = xs.len() - 1;
        assert(states[n + 1] == insert_distinct(states[n], xs[n]));
        assert(inserted_in_turn(xs.drop_last(), states.drop_last())) by {
            assert forall|i: int| 0 <= i < xs.drop_last().len() implies #[trigger] states.drop_last()[i
                + 1] == insert_distinct(states.drop_last()[i], xs.drop_last()[i]) by {
                assert(states[i + 1] == insert_distinct(states[i], xs[i]));
            }
        }
        lemma_inserted_in_turn(xs.drop_last(), states.drop_last());
    }
}

/// Whether `after` holds the event types of `before` with `name` added, as
/// [`QueueBuilder::for_event`] leaves them.
pub open spec fn adds_event_type(before: RegistrationView, after: RegistrationView, name: Seq<char>) -> bool {
    after.event_types == Some(insert_distinct(or_empty(before.event_types), name))
}

/// Whether `after` holds the narrow filters of `before` with the pair added,
/// as [`QueueBuilder::narrow`] leaves them.
pub open spec fn adds_narrow(
    before: RegistrationView,
    after: RegistrationView,
    pair: (Seq<char>, Seq<char>),
) -> bool {
    after.narrow == Some(insert_distinct(or_empty(before.narrow), pair))
}

/// Adding event types one after another to a new registration keeps each
/// distinct name exactly once, in the order in which each was first added.
pub proof fn lemma_event_types_distinct(names: Seq<Seq<char>>, states: Seq<RegistrationView>)
    requires
        states.len() == names.len() + 1,
        states[0].event_types is None,
        forall|i: int| 0 <= i < names.len() ==> adds_event_type(states[i], #[trigger] states[i + 1], names[i]),
    ensures
        or_empty(states.last().event_types).no_duplicates(),
        forall|x: Seq<char>| or_empty(states.last().event_types).contains(x) <==> names.contains(x),
        in_first_seen_order(or_empty(states.last().event_types), names),
{
    let types = states.map_values(|r: RegistrationView| or_empty(r.event_types));
    assert(types[0] =~= Seq::<Seq<char>>::empty());
    assert forall|i: int| 0 <= i < names.len() implies #[trigger] types[i + 1] == insert_distinct(types[i], names[i]) by {
        assert(adds_event_type(states[i], states[i + 1], names[i]));
    }
    lemma_inserted_in_turn(names, types);
    lemma_accumulate(names);
}

/// Adding narrow filters one after another to a new registration keeps each
/// distinct `(condition, value)` pair exactly once, in the order in which
/// each was first added.
pub proof fn lemma_narrow_distinct(pairs: Seq<(Seq<char>, Seq<char>)>, states: Seq<RegistrationView>)
    requires
        states.len() == pairs.len() + 1,
        states[0].narrow is None,
        forall|i: int| 0 <= i < pairs.len() ==> adds_narrow(states[i], #[trigger] states[i + 1], pairs[i]),
    ensures
        or_empty(states.last().narrow).no_duplicates(),
        forall|x: (Seq<char>, Seq<char>)| or_empty(states.last().narrow).contains(x) <==> pairs.contains(x),
        in_first_seen_order(or_empty(states.last().narrow), pairs),
{
    let filters = states.map_values(|r: RegistrationView| or_empty(r.narrow));
    assert(filters[0] =~= Seq::<(Seq<char>, Seq<char>)>::empty());
    assert forall|i: int| 0 <= i < pairs.len() implies #[trigger] filters[i + 1] == insert_distinct(filters[i], pairs[i]) by {
        assert(adds_narrow(states[i], states[i + 1], pairs[i]));
    }
    lemma_inserted_in_turn(pairs, filters);
    lemma_accumulate(pairs);
}

/// What the client announces it can handle.
#[derive(Debug, Clone, Copy, PartialEq, Eq, Structural)]
pub struct ClientCapabilities {
    pub notification_settings_null: bool,
    pub bulk_message_deletion: bool,
    pub user_avatar_url_field_optional: bool,
    pub stream_typing_notifications: bool,
    pub user_settings_object: bool,
}

/// The capabilities as a JSON object.
pub open spec fn capabilities_json(c: ClientCapabilities) -> Seq<char> {
    "{\"notification_settings_null\":"@ + bool_text(c.notification_settings_null)
        + ",\"bulk_message_deletion\":"@ + bool_text(c.bulk_message_deletion)
        + ",\"user_avatar_url_field_optional\":"@ + bool_text(c.user_avatar_url_field_optional)
        + ",\"stream_typing_notifications\":"@ + bool_text(c.stream_typing_notifications)
        + ",\"user_settings_object\":"@ + bool_text(c.user_settings_object) + "}"@
}

impl Default for ClientCapabilities {
    fn default() -> (r: Self)
        ensures
            r == Self::all(),
    {
        Self::new()
    }
}

impl ClientCapabilities {
    pub open spec fn all() -> Self {
        ClientCapabilities {
            notification_settings_null: true,
            bulk_message_deletion: true,
            user_avatar_url_field_optional: true,
            stream_typing_notifications: true,
            user_settings_object: true,
        }
    }

    /// Every capability announced.
    pub fn new() -> (r: Self)
        ensures
            r == Self::all(),
    {
        ClientCapabilities {
            notification_settings_null: true,
            bulk_message_deletion: true,
            user_avatar_url_field_optional: true,
            stream_typing_notifications: true,
            user_settings_object: true,
        }
    }

    pub fn to_json(&self) -> (r: String)
        ensures
            r@ == capabilities_json(*self),
    {
        let mut out = String::new();
        out.append("{\"notification_settings_null\":");
        out.append(bool_to_text(self.notification_settings_null).as_str());
        out.append(",\"bulk_message_deletion\":");
        out.append(bool_to_text(self.bulk_message_deletion).as_str());
        out.append(",\"user_avatar_url_field_optional\":");
        out.append(bool_to_text(self.user_avatar_url_field_optional).as_str());
        out.append(",\"stream_typing_notifications\":");
        out.append(bool_to_text(self.stream_typing_notifications).as_str());
        out.append(",\"user_settings_object\":");
        out.append(bool_to_text(self.user_settings_object).as_str());
        out.append("}");
        out
    }
}

/// The settings of a queue registration: each flag unset or set, the event
/// types and narrow filters added, and the capabilities announced.
pub ghost struct RegistrationView {
    pub apply_markdown: Option<bool>,
    pub client_gravatar: Option<bool>,
    pub slim_presence: Option<bool>,
    pub all_public_streams: Option<bool>,
    pub include_subscribers: Option<bool>,
    pub event_types: Option<Seq<Seq<char>>>,
    pub narrow: Option<Seq<(Seq<char>, Seq<char>)>>,
    pub capabilities: ClientCapabilities,
}

impl RegistrationView {
    /// No flag set, no filter, every capability announced.
    pub open spec fn empty() -> Self {
        RegistrationView {
            apply_markdown: None,
            client_gravatar: None,
            slim_presence: None,
            all_public_streams: None,
            include_subscribers: None,
            event_types: None,
            narrow: None,
            capabilities: ClientCapabilities::all(),
        }
    }
}

pub open spec fn or_empty<A>(s: Option<Seq<A>>) -> Seq<A> {
    match s {
        Some(s) => s,
        None => seq![],
    }
}

/// A flag as a form field, left out when unset.
pub open spec fn flag_field(key: Seq<char>, value: Option<bool>) -> Seq<(Seq<char>, Seq<char>)> {
    match value {
        Some(b) => seq![(key, bool_text(b))],
        None => seq![],
    }
}

/// The form that registers a queue: the flags that are set, the event types
/// and narrow filters as JSON arrays when any were added, and the
/// capabilities as a JSON object.
pub open spec fn registration_form(r: RegistrationView) -> Seq<(Seq<char>, Seq<char>)> {
    flag_field("apply_markdown"@, r.apply_markdown) + flag_field(
        "client_gravatar"@,
        r.client_gravatar,
    ) + flag_field("slim_presence"@, r.slim_presence) + match r.event_types {
        Some(e) => seq![("event_types"@, json_string_array(e))],
        None => seq![],
    } + flag_field("all_public_streams"@, r.all_public_streams) + flag_field(
        "include_subscribers"@,
        r.include_subscribers,
    ) + match r.narrow {
        Some(n) => seq![("narrow"@, json_pair_array(n))],
        None => seq![],
    } + seq![("client_capabilities"@, capabilities_json(r.capabilities))]
}

pub open spec fn pair_view(p: [String; 2]) -> (Seq<char>, Seq<char>) {
    (p@[0]@, p@[1]@)
}

pub open spec fn pairs_view(v: Seq<[String; 2]>) -> Seq<(Seq<char>, Seq<char>)> {
    v.map_values(|p: [String; 2]| pair_view(p))
}

struct RegisterQueueRequest {
    apply_markdown: Option<bool>,
    client_gravatar: Option<bool>,
    slim_presence: Option<bool>,
    event_types: Option<Vec<String>>,
    all_public_streams: Option<bool>,
    include_subscribers: Option<bool>,
    narrow: Option<Vec<[String; 2]>>,
    client_capabilities: ClientCapabilities,
}

impl View for RegisterQueueRequest {
    type V = RegistrationView;

    closed spec fn view(&self) -> RegistrationView {
        RegistrationView {
            apply_markdown: self.apply_markdown,
            client_gravatar: self.client_gravatar,
            slim_presence: self.slim_presence,
            all_public_streams: self.all_public_streams,
            include_subscribers: self.include_subscribers,
            event_types: match self.event_types {
                Some(v) => Some(v.deep_view()),
                None => None,
            },
            narrow: match self.narrow {
                Some(v) => Some(pairs_view(v@)),
                None => None,
            },
            capabilities: self.client_capabilities,
        }
    }
}

fn push_field(out: &mut Pairs, key: &str, value: String)
    ensures
        final(out).deep_view() == old(out).deep_view().push((key@, value@)),
{
    out.push((String::from_str(key), value));
    proof {
        assert(final(out).deep_view() =~= old(out).deep_view().push((key@, value@)));
    }
}

fn push_flag(out: &mut Pairs, key: &str, value: Option<bool>)
    ensures
        final(out).deep_view() == old(out).deep_view() + flag_field(key@, value),
{
    match value {
        Some(b) => push_field(out, key, bool_to_text(b)),
        None => {},
    }
    proof {
        assert(final(out).deep_view() =~= old(out).deep_view() + flag_field(key@, value));
    }
}

/// A JSON array of two-string arrays.
fn json_pairs(items: &Vec<[String; 2]>) -> (r: String)
    ensures
        r@ == json_pair_array(pairs_view(items@)),
{
    let ghost encoded = pairs_view(items@).map_values(
        |p: (Seq<char>, Seq<char>)| json_array(seq![json_string(p.0), json_string(p.1)]),
    );
    let mut out = String::new();
    out.push('[');
    let mut i: usize = 0;
    while i < items.len()
        invariant
            i <= items.len(),
            encoded == pairs_view(items@).map_values(
                |p: (Seq<char>, Seq<char>)|
                    json_array(seq![json_string(p.0), json_string(p.1)]),
            ),
            encoded.len() == items.len(),
            out@ == seq!['['] + json_items(encoded.subrange(0, i as int)),
        decreases items.len() - i,
    {
        if i > 0 {
            out.push(',');
        }
        out.push('[');
        push_json_string(&mut out, items[i][0].as_str());
        out.push(',');
        push_json_string(&mut out, items[i][1].as_str());
        out.push(']');
        proof {
            let next = encoded.subrange(0, i + 1);
            let p = pair_view(items@[i as int]);
            let pieces = seq![json_string(p.0), json_string(p.1)];
            assert(pieces.drop_last() =~= seq![json_string(p.0)]);
            assert(json_items(pieces.drop_last()) == json_string(p.0));
            assert(json_items(pieces) == json_string(p.0) + seq![','] + json_string(p.1));
            assert(next.drop_last() =~= encoded.subrange(0, i as int));
            assert(next.last() == json_array(pieces));
            assert(out@ =~= seq!['['] + json_items(next));
        }
        i = i + 1;
    }
    out.push(']');
    proof {
        assert(encoded.subrange(0, i as int) =~= encoded);
        assert(out@ =~= json_pair_array(pairs_view(items@)));
    }
    out
}

/// Whether `items` holds `item`.
fn contains_string(items: &Vec<String>, item: &String) -> (r: bool)
    ensures
        r == items.deep_view().contains(item@),
{
    let mut i: usize = 0;
    while i < items.len()
        invariant
            i <= items.len(),
            forall|j: int| 0 <= j < i ==> items@[j]@ != item@,
        decreases items.len() - i,
    {
        if items[i] == *item {
            assert(items.deep_view()[i as int] == item@);
            return true;
        }
        i = i + 1;
    }
    proof {
        if items.deep_view().contains(item@) {
            let j = choose|j: int| 0 <= j < items.deep_view().len() && items.deep_view()[j] == item@;
            assert(items@[j]@ == item@);
        }
    }
    false
}

/// Whether `items` holds the pair `(condition, value)`.
fn contains_pair(items: &Vec<[String; 2]>, condition: &String, value: &String) -> (r: bool)
    ensures
        r == pairs_view(items@).contains((condition@, value@)),
{
    let mut i: usize = 0;
    while i < items.len()
        invariant
            i <= items.len(),
            forall|j: int| 0 <= j < i ==> pair_view(items@[j]) != (condition@, value@),
        decreases items.len() - i,
    {
        if items[i][0] == *condition && items[i][1] == *value {
            assert(pairs_view(items@)[i as int] == (condition@, value@));
            return true;
        }
        i = i + 1;
    }
    proof {
        if pairs_view(items@).contains((condition@, value@)) {
            let j = choose|j: int|
                0 <= j < pairs_view(items@).len() && pairs_view(items@)[j] == (condition@, value@);
            assert(pair_view(items@[j]) == (condition@, value@));
        }
    }
    false
}

impl RegisterQueueRequest {
    fn new() -> (r: Self)
        ensures
            r@ == RegistrationView::empty(),
    {
        RegisterQueueRequest {
            apply_markdown: None,
            client_gravatar: None,
            slim_presence: None,
            event_types: None,
            all_public_streams: None,
            include_subscribers: None,
            narrow: None,
            client_capabilities: ClientCapabilities::new(),
        }
    }

    fn form_pairs(&self) -> (r: Pairs)
        ensures
            r.deep_view() == registration_form(self@),
    {
        let mut out: Pairs = Vec::new();
        push_flag(&mut out, "apply_markdown", self.apply_markdown);
        push_flag(&mut out, "client_gravatar", self.client_gravatar);
        push_flag(&mut out, "slim_presence", self.slim_presence);
        let ghost with_types = out.deep_view();
        match &self.event_types {
            Some(events) => push_field(&mut out, "event_types", json_strings(events)),
            None => {},
        }
        proof {
            assert(out.deep_view() =~= with_types + match self@.event_types {
                Some(e) => seq![("event_types"@, json_string_array(e))],
                None => seq![],
            });
        }
        push_flag(&mut out, "all_public_streams", self.all_public_streams);
        push_flag(&mut out, "include_subscribers", self.include_subscribers);
        let ghost with_narrow = out.deep_view();
        match &self.narrow {
            Some(narrow) => push_field(&mut out, "narrow", json_pairs(narrow)),
            None => {},
        }
        proof {
            assert(out.deep_view() =~= with_narrow + match self@.narrow {
                Some(n) => seq![("narrow"@, json_pair_array(n))],
                None => seq![],
            });
        }
        push_field(&mut out, "client_capabilities", self.client_capabilities.to_json());
        proof {
            assert(out.deep_view() =~= registration_form(self@));
        }
        out
    }
}

pub ghost struct QueueBuilderView {
    pub request: RegistrationView,
    pub client: ClientView,
}

/// Collects the settings of a queue registration, then makes the request
/// that registers it.
pub struct QueueBuilder {
    request: RegisterQueueRequest,
    client: Client,
}

impl View for QueueBuilder {
    type V = QueueBuilderView;

    closed spec fn view(&self) -> QueueBuilderView {
        QueueBuilderView { request: self.request@, client: self.client@ }
    }
}

impl QueueBuilder {
    pub fn new(client: Client) -> (r: Self)
        ensures
            r@ == (QueueBuilderView { request: RegistrationView::empty(), client: client@ }),
    {
        Self { request: RegisterQueueRequest::new(), client }
    }

    pub fn apply_markdown(self, value: bool) -> (r: Self)
        ensures
            r@ == (QueueBuilderView {
                request: RegistrationView { apply_markdown: Some(value), ..self@.request },
                ..self@
            }),
    {
        let mut this = self;
        this.request.apply_markdown = Some(value);
        this
    }

    pub fn client_gravatar(self, value: bool) -> (r: Self)
        ensures
            r@ == (QueueBuilderView {
                request: RegistrationView { client_gravatar: Some(value), ..self@.request },
                ..self@
            }),
    {
        let mut this = self;
        this.request.client_gravatar = Some(value);
        this
    }

    pub fn slim_presence(self, value: bool) -> (r: Self)
        ensures
            r@ == (QueueBuilderView {
                request: RegistrationView { slim_presence: Some(value), ..self@.request },
                ..self@
            }),
    {
        let mut this = self;
        this.request.slim_presence = Some(value);
        this
    }

    pub fn all_public_streams(self, value: bool) -> (r: Self)
        ensures
            r@ == (QueueBuilderView {
                request: RegistrationView { all_public_streams: Some(value), ..self@.request },
                ..self@
            }),
    {
        let mut this = self;
        this.request.all_public_streams = Some(value);
        this
    }

    pub fn include_subscribers(self, value: bool) -> (r: Self)
        ensures
            r@ == (QueueBuilderView {
                request: RegistrationView { include_subscribers: Some(value), ..self@.request },
                ..self@
            }),
    {
        let mut this = self;
        this.request.include_subscribers = Some(value);
        this
    }

    /// Subscribes to events of type `event`; a type already added is not
    /// added again.
    pub fn for_event(self, event: &str) -> (r: Self)
        ensures
            r@ == (QueueBuilderView {
                request: RegistrationView {
                    event_types: Some(insert_distinct(or_empty(self@.request.event_types), event@)),
                    ..self@.request
                },
                ..self@
            }),
    {
        let mut this = self;
        let event = String::from_str(event);
        let mut events = match this.request.event_types.take() {
            Some(events) => events,
            None => Vec::with_capacity(1),
        };
        let ghost before = events.deep_view();
        assert(before =~= or_empty(self@.request.event_types));
        if !contains_string(&events, &event) {
            events.push(event);
            proof {
                assert(events.deep_view() =~= before.push(event@));
            }
        }
        this.request.event_types = Some(events);
        this
    }

    /// Keeps only events that match `condition` with `value`; a pair already
    /// added is not added again.
    pub fn narrow(self, condition: &str, value: &str) -> (r: Self)
        ensures
            r@ == (QueueBuilderView {
                request: RegistrationView {
                    narrow: Some(insert_distinct(or_empty(self@.request.narrow), (condition@, value@))),
                    ..self@.request
                },
                ..self@
            }),
    {
        let mut this = self;
        let condition = String::from_str(condition);
        let value = String::from_str(value);
        let mut filters = match this.request.narrow.take() {
            Some(filters) => filters,
            None => Vec::with_capacity(1),
        };
        let ghost before = pairs_view(filters@);
        assert(before =~= or_empty(self@.request.narrow));
        if !contains_pair(&filters, &condition, &value) {
            let ghost pair = (condition@, value@);
            filters.push([condition, value]);
            proof {
                assert(pairs_view(filters@) =~= before.push(pair));
            }
        }
        this.request.narrow = Some(filters);
        this
    }

    /// The session the queue is registered on.
    pub fn client(&self) -> (r: &Client)
        ensures
            r@ == self@.client,
    {
        &self.client
    }

    /// The event types added so far, if any.
    pub fn event_types(&self) -> (r: Option<&Vec<String>>)
        ensures
            match r {
                Some(v) => self@.request.event_types == Some(v.deep_view()),
                None => self@.request.event_types is None,
            },
    {
        self.request.event_types.as_ref()
    }

    /// The narrow filters added so far, if any.
    pub fn narrow_filters(&self) -> (r: Option<&Vec<[String; 2]>>)
        ensures
            match r {
                Some(v) => self@.request.narrow == Some(pairs_view(v@)),
                None => self@.request.narrow is None,
            },
    {
        self.request.narrow.as_ref()
    }

    /// The request that registers the queue.
    pub fn register_request(&self) -> (r: PreparedRequest)
        ensures
            r@ == prepared(
                self@.client,
                Method::Post,
                Endpoint::REGISTER_EVENT_QUEUE@,
                registration_form(self@.request),
            ),
    {
        self.client.prepare(Method::Post, Endpoint::REGISTER_EVENT_QUEUE, self.request.form_pairs())
    }

    /// The queue that the server registered, as its answer describes it.
    pub fn finish(self, response: RegisterQueueResponse) -> (r: Queue)
        ensures
            r@ == (QueueView {
                queue_id: response.queue_id@,
                last_event_id: response.last_event_id,
                client: self@.client,
            }),
    {
        Queue::new(self.client, response)
    }
}

/// The server's answer to a registration.
#[derive(Debug)]
pub struct RegisterQueueResponse {
    pub queue_id: String,
    pub last_event_id: i32,
}

/// A registered queue: its id, the cursor, and the session it belongs to.
pub ghost struct QueueView {
    pub queue_id: Seq<char>,
    pub last_event_id: i32,
    pub client: ClientView,
}

/// The parameters that poll a queue from its cursor.
pub open spec fn poll_params(q: QueueView) -> Seq<(Seq<char>, Seq<char>)> {
    seq![("queue_id"@, q.queue_id), ("last_event_id"@, int_text(q.last_event_id as int))]
}

/// Whether a batch ends in a heartbeat, so that it is dropped and the queue
/// polled again.
pub open spec fn ends_in_heartbeat(events: Seq<Event>) -> bool {
    events.len() > 0 && events.last()@.kind == "heartbeat"@
}

/// The cursor after a batch: the id of its last event, or unchanged after an
/// empty batch.
pub open spec fn cursor_after(cursor: i32, events: Seq<Event>) -> i32 {
    if events.len() > 0 {
        events.last()@.id
    } else {
        cursor
    }
}

struct DispatcherParams {
    queue_id: String,
    last_event_id: i32,
}

struct Dispatcher {
    params: DispatcherParams,
    client: Client,
}

impl View for Dispatcher {
    type V = QueueView;

    closed spec fn view(&self) -> QueueView {
        QueueView {
            queue_id: self.params.queue_id@,
            last_event_id: self.params.last_event_id,
            client: self.client@,
        }
    }
}

impl Dispatcher {
    fn queue_id(&self) -> (r: &str)
        ensures
            r@ == self@.queue_id,
    {
        self.params.queue_id.as_str()
    }

    fn last_event_id(&self) -> (r: i32)
        ensures
            r == self@.last_event_id,
    {
        self.params.last_event_id
    }

    fn poll_request(&self) -> (r: PreparedRequest)
        ensures
            r@ == prepared(self@.client, Method::Get, Endpoint::EVENTS_QUEUE@, poll_params(self@)),
    {
        let mut params: Pairs = Vec::new();
        push_field(&mut params, "queue_id", self.params.queue_id.clone());
        push_field(&mut params, "last_event_id", int_to_text(self.params.last_event_id));
        proof {
            assert(params.deep_view() =~= poll_params(self@));
        }
        self.client.prepare(Method::Get, Endpoint::EVENTS_QUEUE, params)
    }

    fn receive(&mut self, events: Vec<Event>) -> (r: Option<Vec<Event>>)
        ensures
            final(self)@ == (QueueView {
                last_event_id: cursor_after(old(self)@.last_event_id, events@),
                ..old(self)@
            }),
            r == if ends_in_heartbeat(events@) {
                None
            } else {
                Some(events)
            },
    {
        let n = events.len();
        if n > 0 {
            let last = &events[n - 1];
            self.params.last_event_id = last.id();
            if last.is_heartbeat() {
                return None;
            }
        }
        Some(events)
    }

    fn unregister_request(&self) -> (r: PreparedRequest)
        ensures
            r@ == prepared(
                self@.client,
                Method::Delete,
                Endpoint::EVENTS_QUEUE@,
                seq![("queue_id"@, self@.queue_id)],
            ),
    {
        let mut params: Pairs = Vec::new();
        push_field(&mut params, "queue_id", self.params.queue_id.clone());
        proof {
            assert(params.deep_view() =~= seq![("queue_id"@, self@.queue_id)]);
        }
        self.client.prepare(Method::Delete, Endpoint::EVENTS_QUEUE, params)
    }
}

/// A registered event queue. Poll it with [`Queue::poll_request`] and hand
/// each answer to [`Queue::receive`]; once it is unregistered it must not be
/// used again.
pub struct Queue {
    dispatcher: Dispatcher,
}

impl View for Queue {
    type V = QueueView;

    closed spec fn view(&self) -> QueueView {
        self.dispatcher@
    }
}

impl Queue {
    pub fn new(client: Client, response: RegisterQueueResponse) -> (r: Self)
        ensures
            r@ == (QueueView {
                queue_id: response.queue_id@,
                last_event_id: response.last_event_id,
                client: client@,
            }),
    {
        let dispatcher = Dispatcher {
            params: DispatcherParams {
                queue_id: response.queue_id,
                last_event_id: response.last_event_id,
            },
            client,
        };
        Queue { dispatcher }
    }

    pub fn id(&self) -> (r: &str)
        ensures
            r@ == self@.queue_id,
    {
        self.dispatcher.queue_id()
    }

    pub fn last_event_id(&self) -> (r: i32)
        ensures
            r == self@.last_event_id,
    {
        self.dispatcher.last_event_id()
    }

    /// The session the queue belongs to.
    pub fn client(&self) -> (r: &Client)
        ensures
            r@ == self@.client,
    {
        &self.dispatcher.client
    }

    /// The request that fetches the events after the cursor.
    pub fn poll_request(&self) -> (r: PreparedRequest)
        ensures
            r@ == prepared(self@.client, Method::Get, Endpoint::EVENTS_QUEUE@, poll_params(self@)),
    {
        self.dispatcher.poll_request()
    }

    /// Takes a batch that a poll returned. The cursor moves to the id of the
    /// batch's last event, whatever the batch's size. A batch that ends in a
    /// heartbeat is dropped (`None`: poll again); any other batch, empty or
    /// holding heartbeats elsewhere, is handed back whole.
    pub fn receive(&mut self, events: Vec<Event>) -> (r: Option<Vec<Event>>)
        ensures
            final(self)@ == (QueueView {
                last_event_id: cursor_after(old(self)@.last_event_id, events@),
                ..old(self)@
            }),
            r == if ends_in_heartbeat(events@) {
                None
            } else {
                Some(events)
            },
    {
        self.dispatcher.receive(events)
    }

    /// The request that unregisters the queue.
    pub fn unregister_request(&self) -> (r: PreparedRequest)
        ensures
            r@ == prepared(
                self@.client,
                Method::Delete,
                Endpoint::EVENTS_QUEUE@,
                seq![("queue_id"@, self@.queue_id)],
            ),
    {
        self.dispatcher.unregister_request()
    }
}

/// One event from the queue.
#[derive(Debug)]
pub struct Event {
    id: i32,
    kind: String,
    op: Option<EventOp>,
}

pub ghost struct EventView {
    pub id: i32,
    pub kind: Seq<char>,
    pub op: Option<EventOp>,
}

impl View for Event {
    type V = EventView;

    closed spec fn view(&self) -> EventView {
        EventView { id: self.id, kind: self.kind@, op: self.op }
    }
}

impl Event {
    pub fn new(id: i32, kind: String, op: Option<EventOp>) -> (r: Self)
        ensures
            r@ == (EventView { id, kind: kind@, op }),
    {
        Event { id, kind, op }
    }

    pub fn id(&self) -> (r: i32)
        ensures
            r == self@.id,
    {
        self.id
    }

    /// The event's type.
    pub fn kind(&self) -> (r: &str)
        ensures
            r@ == self@.kind,
    {
        self.kind.as_str()
    }

    pub fn op(&self) -> (r: Option<EventOp>)
        ensures
            r == self@.op,
    {
        self.op
    }

    /// Whether the event only keeps the connection alive.
    pub fn is_heartbeat(&self) -> (r: bool)
        ensures
            r == (self@.kind == "heartbeat"@),
    {
        str_eq(self.kind.as_str(), "heartbeat")
    }
}

/// What an event did.
#[derive(Debug, Clone, Copy, PartialEq, Eq, Structural)]
pub enum EventOp {
    Update,
    Add,
    Remove,
    PeerAdd,
    PeerRemove,
    Create,
    Delete,
    Start,
    Stop,
    AddMembers,
    RemoveMembers,
    AddSubgroups,
    RemoveSubgroups,
    Change,
    Deactivated,
    UpdateDict,
}

/// The operation that the name `name` stands for on the wire.
pub open spec fn op_named(name: Seq<char>) -> Option<EventOp> {
    if name == "update"@ {
        Some(EventOp::Update)
    } else if name == "add"@ {
        Some(EventOp::Add)
    } else if name == "remove"@ {
        Some(EventOp::Remove)
    } else if name == "peer_add"@ {
        Some(EventOp::PeerAdd)
    } else if name == "peer_remove"@ {
        Some(EventOp::PeerRemove)
    } else if name == "create"@ {
        Some(EventOp::Create)
    } else if name == "delete"@ {
        Some(EventOp::Delete)
    } else if name == "start"@ {
        Some(EventOp::Start)
    } else if name == "stop"@ {
        Some(EventOp::Stop)
    } else if name == "add_members"@ {
        Some(EventOp::AddMembers)
    } else if name == "remove_members"@ {
        Some(EventOp::RemoveMembers)
    } else if name == "add_subgroups"@ {
        Some(EventOp::AddSubgroups)
    } else if name == "remove_subgroups"@ {
        Some(EventOp::RemoveSubgroups)
    } else if name == "change"@ {
        Some(EventOp::Change)
    } else if name == "deactivated"@ {
        Some(EventOp::Deactivated)
    } else if name == "update_dict"@ {
        Some(EventOp::UpdateDict)
    } else {
        None
    }
}

impl EventOp {
    /// Reads an operation from its name on the wire; `None` for an unknown
    /// name.
    pub fn from_name(name: &str) -> (r: Option<EventOp>)
        ensures
            r == op_named(name@),
    {
        if str_eq(name, "update") {
            Some(EventOp::Update)
        } else if str_eq(name, "add") {
            Some(EventOp::Add)
        } else if str_eq(name, "remove") {
            Some(EventOp::Remove)
        } else if str_eq(name, "peer_add") {
            Some(EventOp::PeerAdd)
        } else if str_eq(name, "peer_remove") {
            Some(EventOp::PeerRemove)
        } else if str_eq(name, "create") {
            Some(EventOp::Create)
        } else if str_eq(name, "delete") {
            Some(EventOp::Delete)
        } else if str_eq(name, "start") {
            Some(EventOp::Start)
        } else if str_eq(name, "stop") {
            Some(EventOp::Stop)
        } else if str_eq(name, "add_members") {
            Some(EventOp::AddMembers)
        } else if str_eq(name, "remove_members") {
            Some(EventOp::RemoveMembers)
        } else if str_eq(name, "add_subgroups") {
            Some(EventOp::AddSubgroups)
        } else if str_eq(name, "remove_subgroups") {
            Some(EventOp::RemoveSubgroups)
        } else if str_eq(name, "change") {
            Some(EventOp::Change)
        } else if str_eq(name, "deactivated") {
            Some(EventOp::Deactivated)
        } else if str_eq(name, "update_dict") {
            Some(EventOp::UpdateDict)
        } else {
            None
        }
    }
}

} // verus!
