use vstd::prelude::*;

use crate::model::{contains_string, copy_strings, views, SyncAndMonitorModule};
use crate::sync_settings::{same_listener, settings_views, SyncSettings, SyncSettingsView};

verus! {

/// The listeners registered for one monitor topic.
pub struct TopicListeners {
    pub topic: String,
    pub listeners: Vec<SyncSettings>,
}

/// The values of a [`TopicListeners`].
#[verifier::ext_equal]
pub struct TopicEntryView {
    pub topic: Seq<char>,
    pub listeners: Seq<SyncSettingsView>,
}

impl View for TopicListeners {
    type V = TopicEntryView;

    open spec fn view(&self) -> TopicEntryView {
        TopicEntryView { topic: self.topic@, listeners: settings_views(self.listeners@) }
    }
}

/// The state that the gateway keeps on cloud synchronisation: the listeners of
/// each monitor topic, the topics waiting for a connection, whether the
/// linchpin connection is up, and the distributor token last handed over.
pub struct GatewayState {
    listener_map: Vec<TopicListeners>,
    pending_topics: Vec<String>,
    linchpin_connected: bool,
    sat_token: String,
}

/// The values of a [`GatewayState`].
#[verifier::ext_equal]
pub struct GatewayStateView {
    pub entries: Seq<TopicEntryView>,
    pub pending: Seq<Seq<char>>,
    pub connected: bool,
    pub token: Seq<char>,
}

/// The views of a sequence of topic entries.
pub open spec fn entries_views(v: Seq<TopicListeners>) -> Seq<TopicEntryView> {
    v.map_values(|e: TopicListeners| e@)
}

impl View for GatewayState {
    type V = GatewayStateView;

    closed spec fn view(&self) -> GatewayStateView {
        GatewayStateView {
            entries: entries_views(self.listener_map@),
            pending: views(self.pending_topics@),
            connected: self.linchpin_connected,
            token: self.sat_token@,
        }
    }
}

/// A request to the gateway state.
pub enum StateRequest {
    AddListener(SyncSettings),
    RemoveListener(SyncSettings),
    AddPendingTopic(String),
    SetLinchpinConnectionStatus(bool),
    GetLinchpinConnectionStatus,
    GetListeningTopics,
    GetListenersForProperties(String, Vec<String>),
    GetListenersForModule(String, SyncAndMonitorModule),
    GetAllPendingTopics,
    SetDistributorToken(String),
    GetDistributorToken,
    ClearPendingTopics,
}

/// The values of a [`StateRequest`].
pub enum StateRequestView {
    AddListener(SyncSettingsView),
    RemoveListener(SyncSettingsView),
    AddPendingTopic(Seq<char>),
    SetLinchpinConnectionStatus(bool),
    GetLinchpinConnectionStatus,
    GetListeningTopics,
    GetListenersForProperties(Seq<char>, Seq<Seq<char>>),
    GetListenersForModule(Seq<char>, SyncAndMonitorModule),
    GetAllPendingTopics,
    SetDistributorToken(Seq<char>),
    GetDistributorToken,
    ClearPendingTopics,
}

impl View for StateRequest {
    type V = StateRequestView;

    open spec fn view(&self) -> StateRequestView {
        match self {
            StateRequest::AddListener(l) => StateRequestView::AddListener(l@),
            StateRequest::RemoveListener(l) => StateRequestView::RemoveListener(l@),
            StateRequest::AddPendingTopic(t) => StateRequestView::AddPendingTopic(t@),
            StateRequest::SetLinchpinConnectionStatus(b) => StateRequestView::SetLinchpinConnectionStatus(*b),
            StateRequest::GetLinchpinConnectionStatus => StateRequestView::GetLinchpinConnectionStatus,
            StateRequest::GetListeningTopics => StateRequestView::GetListeningTopics,
            StateRequest::GetListenersForProperties(t, p) => StateRequestView::GetListenersForProperties(
                t@,
                views(p@),
            ),
            StateRequest::GetListenersForModule(t, m) => StateRequestView::GetListenersForModule(t@, *m),
            StateRequest::GetAllPendingTopics => StateRequestView::GetAllPendingTopics,
            StateRequest::SetDistributorToken(t) => StateRequestView::SetDistributorToken(t@),
            StateRequest::GetDistributorToken => StateRequestView::GetDistributorToken,
            StateRequest::ClearPendingTopics => StateRequestView::ClearPendingTopics,
        }
    }
}

/// The answer to a [`StateRequest`]; requests that only change the state are answered `Done`.
pub enum StateReply {
    Done,
    ConnectionStatus(bool),
    Topics(Vec<String>),
    Listeners(Vec<SyncSettings>),
    Token(String),
}

/// The values of a [`StateReply`].
pub enum StateReplyView {
    Done,
    ConnectionStatus(bool),
    Topics(Seq<Seq<char>>),
    Listeners(Seq<SyncSettingsView>),
    Token(Seq<char>),
}

impl View for StateReply {
    type V = StateReplyView;

    open spec fn view(&self) -> StateReplyView {
        match self {
            StateReply::Done => StateReplyView::Done,
            StateReply::ConnectionStatus(b) => StateReplyView::ConnectionStatus(*b),
            StateReply::Topics(t) => StateReplyView::Topics(views(t@)),
            StateReply::Listeners(l) => StateReplyView::Listeners(settings_views(l@)),
            StateReply::Token(t) => StateReplyView::Token(t@),
        }
    }
}

/// The position of the entry for `topic`, or -1 when there is none.
pub open spec fn topic_pos(entries: Seq<TopicEntryView>, topic: Seq<char>) -> int {
    if exists|i: int|
        0 <= i < entries.len() && entries[i].topic == topic && forall|j: int|
            0 <= j < i ==> entries[j].topic != topic {
        choose|i: int|
            0 <= i < entries.len() && entries[i].topic == topic && forall|j: int|
                0 <= j < i ==> entries[j].topic != topic
    } else {
        -1
    }
}

/// The position of the first listener that is the same listener as `l`, or -1.
pub open spec fn listener_pos(ls: Seq<SyncSettingsView>, l: SyncSettingsView) -> int {
    if exists|i: int|
        0 <= i < ls.len() && same_listener(ls[i], l) && forall|j: int|
            0 <= j < i ==> !same_listener(ls[j], l) {
        choose|i: int|
            0 <= i < ls.len() && same_listener(ls[i], l) && forall|j: int|
                0 <= j < i ==> !same_listener(ls[j], l)
    } else {
        -1
    }
}

/// Whether a listener watches every one of `props`.
pub open spec fn watches_all(l: SyncSettingsView, props: Seq<Seq<char>>) -> bool {
    forall|k: int| 0 <= k < props.len() ==> l.settings.contains(#[trigger] props[k])
}

/// The listeners that watch every one of `props`, in order.
pub open spec fn watching_all(ls: Seq<SyncSettingsView>, props: Seq<Seq<char>>) -> Seq<SyncSettingsView>
    decreases ls.len(),
{
    if ls.len() == 0 {
        Seq::empty()
    } else {
        let rest = watching_all(ls.drop_last(), props);
        if watches_all(ls.last(), props) {
            rest.push(ls.last())
        } else {
            rest
        }
    }
}

/// The listeners of a module, in order.
pub open spec fn of_module(ls: Seq<SyncSettingsView>, m: SyncAndMonitorModule) -> Seq<SyncSettingsView>
    decreases ls.len(),
{
    if ls.len() == 0 {
        Seq::empty()
    } else {
        let rest = of_module(ls.drop_last(), m);
        if ls.last().module == m {
            rest.push(ls.last())
        } else {
            rest
        }
    }
}

/// The listeners registered for `topic` (none when the topic is unknown).
pub open spec fn listeners_of(s: GatewayStateView, topic: Seq<char>) -> Seq<SyncSettingsView> {
    let p = topic_pos(s.entries, topic);
    if p >= 0 {
        s.entries[p].listeners
    } else {
        Seq::empty()
    }
}

/// The topics that have had a listener, in the order in which they first got one.
pub open spec fn listening_topics(s: GatewayStateView) -> Seq<Seq<char>> {
    s.entries.map_values(|e: TopicEntryView| e.topic)
}

/// The state after adding listener `l`: it joins its topic unless that topic
/// already holds the same listener.
pub open spec fn add_listener(s: GatewayStateView, l: SyncSettingsView) -> GatewayStateView {
    let p = topic_pos(s.entries, l.cloud_monitor_topic);
    if p >= 0 {
        let e = s.entries[p];
        if listener_pos(e.listeners, l) >= 0 {
            s
        } else {
            GatewayStateView {
                entries: s.entries.update(
                    p,
                    TopicEntryView { topic: e.topic, listeners: e.listeners.push(l) },
                ),
                ..s
            }
        }
    } else {
        GatewayStateView {
            entries: s.entries.push(
                TopicEntryView { topic: l.cloud_monitor_topic, listeners: seq![l] },
            ),
            ..s
        }
    }
}

/// The state after removing listener `l` from its topic.
pub open spec fn remove_listener(s: GatewayStateView, l: SyncSettingsView) -> GatewayStateView {
    let p = topic_pos(s.entries, l.cloud_monitor_topic);
    if p >= 0 {
        let e = s.entries[p];
        let q = listener_pos(e.listeners, l);
        if q >= 0 {
            GatewayStateView {
                entries: s.entries.update(
                    p,
                    TopicEntryView { topic: e.topic, listeners: e.listeners.remove(q) },
                ),
                ..s
            }
        } else {
            s
        }
    } else {
        s
    }
}

/// What a request does: the next state and the reply.
pub open spec fn step(s: GatewayStateView, r: StateRequestView) -> (GatewayStateView, StateReplyView) {
    match r {
        StateRequestView::AddListener(l) => (add_listener(s, l), StateReplyView::Done),
        StateRequestView::RemoveListener(l) => (remove_listener(s, l), StateReplyView::Done),
        StateRequestView::AddPendingTopic(t) => (
            GatewayStateView { pending: s.pending.push(t), ..s },
            StateReplyView::Done,
        ),
        StateRequestView::SetLinchpinConnectionStatus(b) => (
            GatewayStateView { connected: b, ..s },
            StateReplyView::Done,
        ),
        StateRequestView::GetLinchpinConnectionStatus => (
            s,
            StateReplyView::ConnectionStatus(s.connected),
        ),
        StateRequestView::GetListeningTopics => (s, StateReplyView::Topics(listening_topics(s))),
        StateRequestView::GetListenersForProperties(t, props) => (
            s,
            StateReplyView::Listeners(watching_all(listeners_of(s, t), props)),
        ),
        StateRequestView::GetListenersForModule(t, m) => (
            s,
            StateReplyView::Listeners(of_module(listeners_of(s, t), m)),
        ),
        StateRequestView::GetAllPendingTopics => (s, StateReplyView::Topics(s.pending)),
        StateRequestView::SetDistributorToken(t) => (
            GatewayStateView { token: t, ..s },
            StateReplyView::Done,
        ),
        StateRequestView::GetDistributorToken => (s, StateReplyView::Token(s.token)),
        StateRequestView::ClearPendingTopics => (
            GatewayStateView { pending: Seq::empty(), ..s },
            StateReplyView::Done,
        ),
    }
}

/// The state that the gateway starts with: no listeners, no pending topics,
/// not connected, empty token.
pub open spec fn initial_state() -> GatewayStateView {
    GatewayStateView {
        entries: Seq::empty(),
        pending: Seq::empty(),
        connected: false,
        token: Seq::empty(),
    }
}

/// The state after serving `reqs` in order, from `s`.
pub open spec fn run(s: GatewayStateView, reqs: Seq<StateRequestView>) -> GatewayStateView
    decreases reqs.len(),
{
    if reqs.len() == 0 {
        s
    } else {
        step(run(s, reqs.drop_last()), reqs.last()).0
    }
}

/// The token of the last `SetDistributorToken` among `reqs`, or `dflt` when there is none.
pub open spec fn last_token(reqs: Seq<StateRequestView>, dflt: Seq<char>) -> Seq<char>
    decreases reqs.len(),
{
    if reqs.len() == 0 {
        dflt
    } else {
        match reqs.last() {
            StateRequestView::SetDistributorToken(t) => t,
            _ => last_token(reqs.drop_last(), dflt),
        }
    }
}

/// The status of the last `SetLinchpinConnectionStatus` among `reqs`, or `dflt` when there is none.
pub open spec fn last_status(reqs: Seq<StateRequestView>, dflt: bool) -> bool
    decreases reqs.len(),
{
    if reqs.len() == 0 {
        dflt
    } else {
        match reqs.last() {
            StateRequestView::SetLinchpinConnectionStatus(b) => b,
            _ => last_status(reqs.drop_last(), dflt),
        }
    }
}

/// The topics of the `AddPendingTopic` requests among `reqs` since the last
/// `ClearPendingTopics`, in order and with repetitions, following `before`
/// when no clear came.
pub open spec fn pending_after(before: Seq<Seq<char>>, reqs: Seq<StateRequestView>) -> Seq<Seq<char>>
    decreases reqs.len(),
{
    if reqs.len() == 0 {
        before
    } else {
        match reqs.last() {
            StateRequestView::AddPendingTopic(t) => pending_after(before, reqs.drop_last()).push(t),
            StateRequestView::ClearPendingTopics => Seq::empty(),
            _ => pending_after(before, reqs.drop_last()),
        }
    }
}

/// Whether, after `reqs`, a listener that is the same as `m` stands
/// registered: the last request that adds or removes such a listener adds it.
pub open spec fn registered(reqs: Seq<StateRequestView>, m: SyncSettingsView) -> bool
    decreases reqs.len(),
{
    if reqs.len() == 0 {
        false
    } else {
        match reqs.last() {
            StateRequestView::AddListener(x) => if same_listener(x, m) {
                true
            } else {
                registered(reqs.drop_last(), m)
            },
            StateRequestView::RemoveListener(x) => if same_listener(x, m) {
                false
            } else {
                registered(reqs.drop_last(), m)
            },
            _ => registered(reqs.drop_last(), m),
        }
    }
}

/// Whether the topic of `m` holds a listener that is the same as `m`.
pub open spec fn holds(s: GatewayStateView, m: SyncSettingsView) -> bool {
    exists|k: int|
        0 <= k < listeners_of(s, m.cloud_monitor_topic).len() && #[trigger] same_listener(
            listeners_of(s, m.cloud_monitor_topic)[k],
            m,
        )
}

/// The well-formedness of the state: each topic has one entry, every listener
/// sits under its own topic, and no topic holds the same listener twice.
pub open spec fn state_wf(s: GatewayStateView) -> bool {
    &&& forall|i: int, j: int|
        0 <= i < j < s.entries.len() ==> s.entries[i].topic != s.entries[j].topic
    &&& forall|i: int, k: int|
        0 <= i < s.entries.len() && 0 <= k < s.entries[i].listeners.len()
            ==> (#[trigger] s.entries[i].listeners[k]).cloud_monitor_topic == s.entries[i].topic
    &&& forall|i: int, k1: int, k2: int|
        0 <= i < s.entries.len() && 0 <= k1 < k2 < s.entries[i].listeners.len() ==> !same_listener(
            #[trigger] s.entries[i].listeners[k1],
            #[trigger] s.entries[i].listeners[k2],
        )
}

/// Whether every one of `props` is among `settings`.
fn watches_all_exec(settings: &Vec<String>, props: &Vec<String>) -> (r: bool)
    ensures
        r == (forall|k: int| 0 <= k < views(props@).len() ==> views(settings@).contains(#[trigger] views(props@)[k])),
{
    let mut i: usize = 0;
    while i < props.len()
        invariant
            i <= props@.len(),
            forall|k: int| 0 <= k < i ==> views(settings@).contains(#[trigger] views(props@)[k]),
        decreases props@.len() - i,
    {
        if !contains_string(settings, &props[i]) {
            assert(views(props@)[i as int] == props@[i as int]@);
            return false;
        }
        i = i + 1;
    }
    true
}

impl GatewayState {
    /// The empty state: no listeners, no pending topics, not connected, empty token.
    pub fn new() -> (r: GatewayState)
        ensures
            r@ == initial_state(),
    {
        let r = GatewayState {
            listener_map: Vec::new(),
            pending_topics: Vec::new(),
            linchpin_connected: false,
            sat_token: String::new(),
        };
        assert(r@.entries =~= Seq::<TopicEntryView>::empty());
        assert(r@.pending =~= Seq::<Seq<char>>::empty());
        assert(r@ =~= initial_state());
        r
    }

    fn find_topic(&self, topic: &String) -> (r: Option<usize>)
        ensures
            match r {
                Some(i) => i == topic_pos(self@.entries, topic@) && i < self@.entries.len(),
                None => topic_pos(self@.entries, topic@) == -1,
            },
    {
        let mut i: usize = 0;
        while i < self.listener_map.len()
            invariant
                i <= self.listener_map@.len(),
                forall|j: int| 0 <= j < i ==> self@.entries[j].topic != topic@,
            decreases self.listener_map@.len() - i,
        {
            if self.listener_map[i].topic == *topic {
                let ghost e = self@.entries;
                assert(e[i as int].topic == topic@);
                let ghost p = topic_pos(e, topic@);
                assert(p == i) by {
                    assert(0 <= p < e.len() && e[p].topic == topic@ && forall|j: int|
                        0 <= j < p ==> e[j].topic != topic@);
                    if p < i {
                        assert(e[p].topic != topic@);
                    }
                    if p > i {
                        assert(e[i as int].topic != topic@);
                    }
                }
                return Some(i);
            }
            i = i + 1;
        }
        None
    }

    fn find_listener(ls: &Vec<SyncSettings>, l: &SyncSettings) -> (r: Option<usize>)
        ensures
            match r {
                Some(i) => i == listener_pos(settings_views(ls@), l@) && i < ls@.len(),
                None => listener_pos(settings_views(ls@), l@) == -1,
            },
    {
        let ghost v = settings_views(ls@);
        let mut i: usize = 0;
        while i < ls.len()
            invariant
                i <= ls@.len(),
                v == settings_views(ls@),
                forall|j: int| 0 <= j < i ==> !same_listener(v[j], l@),
            decreases ls@.len() - i,
        {
            if ls[i].eq(l) {
                assert(same_listener(v[i as int], l@));
                let ghost p = listener_pos(v, l@);
                assert(p == i) by {
                    assert(0 <= p < v.len() && same_listener(v[p], l@) && forall|j: int|
                        0 <= j < p ==> !same_listener(v[j], l@));
                    if p < i {
                        assert(!same_listener(v[p], l@));
                    }
                    if p > i {
                        assert(!same_listener(v[i as int], l@));
                    }
                }
                return Some(i);
            }
            i = i + 1;
        }
        None
    }
}


impl GatewayState {
    /// Adds listener `l` under its topic.
    fn insert_listener(&mut self, l: SyncSettings)
        ensures
            final(self)@ == add_listener(old(self)@, l@),
    {
        let ghost old_entries = self@.entries;
        match self.find_topic(&l.cloud_monitor_topic) {
            Some(i) => {
                match Self::find_listener(&self.listener_map[i].listeners, &l) {
                    Some(_) => {},
                    None => {
                        let ghost old_map = self.listener_map@;
                        let mut e = self.listener_map.remove(i);
                        let ghost old_ls = e.listeners@;
                        e.listeners.push(l);
                        assert(settings_views(e.listeners@) =~= settings_views(old_ls).push(l@));
                        self.listener_map.insert(i, e);
                        assert(self.listener_map@ =~= old_map.update(i as int, e));
                        assert(self@.entries =~= old_entries.update(
                            i as int,
                            TopicEntryView { topic: old_entries[i as int].topic, listeners: old_entries[i as int].listeners.push(l@) },
                        ));
                    },
                }
            },
            None => {
                let topic = l.cloud_monitor_topic.clone();
                let mut ls: Vec<SyncSettings> = Vec::new();
                ls.push(l);
                let ghost old_map = self.listener_map@;
                let e = TopicListeners { topic, listeners: ls };
                assert(settings_views(e.listeners@) =~= seq![l@]);
                self.listener_map.push(e);
                assert(self@.entries =~= old_entries.push(
                    TopicEntryView { topic: l@.cloud_monitor_topic, listeners: seq![l@] },
                ));
            },
        }
    }

    /// Removes listener `l` from its topic.
    fn drop_listener(&mut self, l: SyncSettings)
        ensures
            final(self)@ == remove_listener(old(self)@, l@),
    {
        let ghost old_entries = self@.entries;
        match self.find_topic(&l.cloud_monitor_topic) {
            Some(i) => {
                match Self::find_listener(&self.listener_map[i].listeners, &l) {
                    Some(q) => {
                        let ghost old_map = self.listener_map@;
                        let mut e = self.listener_map.remove(i);
                        let ghost old_ls = e.listeners@;
                        let _removed = e.listeners.remove(q);
                        assert(settings_views(e.listeners@) =~= settings_views(old_ls).remove(q as int));
                        self.listener_map.insert(i, e);
                        assert(self.listener_map@ =~= old_map.update(i as int, e));
                        assert(self@.entries =~= old_entries.update(
                            i as int,
                            TopicEntryView { topic: old_entries[i as int].topic, listeners: old_entries[i as int].listeners.remove(q as int) },
                        ));
                    },
                    None => {},
                }
            },
            None => {},
        }
    }

    /// Copies of the listeners of `topic` that watch every one of `props`.
    fn listeners_for_properties(&self, topic: &String, props: &Vec<String>) -> (r: Vec<SyncSettings>)
        ensures
            settings_views(r@) == watching_all(listeners_of(self@, topic@), views(props@)),
    {
        let mut r: Vec<SyncSettings> = Vec::new();
        match self.find_topic(topic) {
            Some(i) => {
                let ls = &self.listener_map[i].listeners;
                let ghost lv = settings_views(ls@);
                assert(lv == listeners_of(self@, topic@));
                let mut j: usize = 0;
                while j < ls.len()
                    invariant
                        j <= ls@.len(),
                        lv == settings_views(ls@),
                        settings_views(r@) == watching_all(lv.take(j as int), views(props@)),
                    decreases ls@.len() - j,
                {
                    assert(lv.take(j + 1).drop_last() =~= lv.take(j as int));
                    assert(lv.take(j + 1).last() == lv[j as int]);
                    if watches_all_exec(&ls[j].settings, props) {
                        let ghost old_r = r@;
                        r.push(ls[j].duplicate());
                        assert(settings_views(r@) =~= settings_views(old_r).push(lv[j as int]));
                    }
                    j = j + 1;
                }
                assert(lv.take(ls@.len() as int) =~= lv);
            },
            None => {
                assert(settings_views(r@) =~= Seq::<SyncSettingsView>::empty());
            },
        }
        r
    }

    /// Copies of the listeners of `topic` that belong to `module`.
    fn listeners_for_module(&self, topic: &String, module: SyncAndMonitorModule) -> (r: Vec<SyncSettings>)
        ensures
            settings_views(r@) == of_module(listeners_of(self@, topic@), module),
    {
        let mut r: Vec<SyncSettings> = Vec::new();
        match self.find_topic(topic) {
            Some(i) => {
                let ls = &self.listener_map[i].listeners;
                let ghost lv = settings_views(ls@);
                assert(lv == listeners_of(self@, topic@));
                let mut j: usize = 0;
                while j < ls.len()
                    invariant
                        j <= ls@.len(),
                        lv == settings_views(ls@),
                        settings_views(r@) == of_module(lv.take(j as int), module),
                    decreases ls@.len() - j,
                {
                    assert(lv.take(j + 1).drop_last() =~= lv.take(j as int));
                    assert(lv.take(j + 1).last() == lv[j as int]);
                    if ls[j].module == module {
                        let ghost old_r = r@;
                        r.push(ls[j].duplicate());
                        assert(settings_views(r@) =~= settings_views(old_r).push(lv[j as int]));
                    }
                    j = j + 1;
                }
                assert(lv.take(ls@.len() as int) =~= lv);
            },
            None => {
                assert(settings_views(r@) =~= Seq::<SyncSettingsView>::empty());
            },
        }
        r
    }

    /// The topics that have had a listener.
    fn listening_topics(&self) -> (r: Vec<String>)
        ensures
            views(r@) == listening_topics(self@),
    {
        let mut r: Vec<String> = Vec::new();
        let mut j: usize = 0;
        while j < self.listener_map.len()
            invariant
                j <= self.listener_map@.len(),
                views(r@) =~= listening_topics(self@).take(j as int),
            decreases self.listener_map@.len() - j,
        {
            let ghost old_r = r@;
            r.push(self.listener_map[j].topic.clone());
            assert(self@.entries[j as int].topic == self.listener_map@[j as int].topic@);
            assert(views(r@) =~= views(old_r).push(self.listener_map@[j as int].topic@));
            assert(listening_topics(self@).take(j + 1) =~= listening_topics(self@).take(j as int).push(self@.entries[j as int].topic));
            j = j + 1;
        }
        r
    }
}

/// The gateway of the distributor platform.
pub struct AppsanityGateway {}

impl AppsanityGateway {
    /// Serves one request to the gateway state and gives its answer.
    pub fn process_state_request(state: &mut GatewayState, request: StateRequest) -> (r: StateReply)
        ensures
            (final(state)@, r@) == step(old(state)@, request@),
    {
        match request {
            StateRequest::AddListener(l) => {
                state.insert_listener(l);
                StateReply::Done
            },
            StateRequest::RemoveListener(l) => {
                state.drop_listener(l);
                StateReply::Done
            },
            StateRequest::AddPendingTopic(t) => {
                state.pending_topics.push(t);
                StateReply::Done
            },
            StateRequest::SetLinchpinConnectionStatus(b) => {
                state.linchpin_connected = b;
                StateReply::Done
            },
            StateRequest::GetLinchpinConnectionStatus => StateReply::ConnectionStatus(
                state.linchpin_connected,
            ),
            StateRequest::GetListeningTopics => StateReply::Topics(state.listening_topics()),
            StateRequest::GetListenersForProperties(t, props) => StateReply::Listeners(
                state.listeners_for_properties(&t, &props),
            ),
            StateRequest::GetListenersForModule(t, m) => StateReply::Listeners(
                state.listeners_for_module(&t, m),
            ),
            StateRequest::GetAllPendingTopics => StateReply::Topics(copy_strings(&state.pending_topics)),
            StateRequest::SetDistributorToken(t) => {
                state.sat_token = t;
                StateReply::Done
            },
            StateRequest::GetDistributorToken => StateReply::Token(state.sat_token.clone()),
            StateRequest::ClearPendingTopics => {
                state.pending_topics = Vec::new();
                assert(views(state.pending_topics@) =~= Seq::<Seq<char>>::empty());
                StateReply::Done
            },
        }
    }
}


/// What the position of a topic says about the entries.
proof fn lemma_topic_pos(entries: Seq<TopicEntryView>, t: Seq<char>)
    ensures
        topic_pos(entries, t) >= 0 ==> {
            &&& topic_pos(entries, t) < entries.len()
            &&& entries[topic_pos(entries, t)].topic == t
        },
        topic_pos(entries, t) < 0 ==> topic_pos(entries, t) == -1 && forall|j: int|
            0 <= j < entries.len() ==> entries[j].topic != t,
{
    if topic_pos(entries, t) < 0 {
        assert forall|j: int| 0 <= j < entries.len() implies entries[j].topic != t by {
            if entries[j].topic == t {
                lemma_first_index(entries, t, j);
            }
        }
    }
}

/// A topic that occurs at `j` occurs first somewhere at or before `j`.
proof fn lemma_first_index(entries: Seq<TopicEntryView>, t: Seq<char>, j: int)
    requires
        0 <= j < entries.len(),
        entries[j].topic == t,
    ensures
        exists|w: int| 0 <= w <= j && entries[w].topic == t && forall|k: int|
            0 <= k < w ==> entries[k].topic != t,
    decreases j,
{
    if exists|k: int| 0 <= k < j && entries[k].topic == t {
        let k = choose|k: int| 0 <= k < j && entries[k].topic == t;
        lemma_first_index(entries, t, k);
    } else {
        assert(forall|k: int| 0 <= k < j ==> entries[k].topic != t);
    }
}

/// What the position of a listener says about the listeners.
proof fn lemma_listener_pos(ls: Seq<SyncSettingsView>, l: SyncSettingsView)
    ensures
        listener_pos(ls, l) >= 0 ==> {
            &&& listener_pos(ls, l) < ls.len()
            &&& same_listener(ls[listener_pos(ls, l)], l)
        },
        listener_pos(ls, l) < 0 ==> listener_pos(ls, l) == -1 && forall|j: int|
            0 <= j < ls.len() ==> !same_listener(ls[j], l),
{
    if listener_pos(ls, l) < 0 {
        assert forall|j: int| 0 <= j < ls.len() implies !same_listener(ls[j], l) by {
            if same_listener(ls[j], l) {
                lemma_first_listener(ls, l, j);
            }
        }
    }
}

/// A listener that occurs at `j` occurs first somewhere at or before `j`.
proof fn lemma_first_listener(ls: Seq<SyncSettingsView>, l: SyncSettingsView, j: int)
    requires
        0 <= j < ls.len(),
        same_listener(ls[j], l),
    ensures
        exists|w: int| 0 <= w <= j && same_listener(ls[w], l) && forall|k: int|
            0 <= k < w ==> !same_listener(ls[k], l),
    decreases j,
{
    if exists|k: int| 0 <= k < j && same_listener(ls[k], l) {
        let k = choose|k: int| 0 <= k < j && same_listener(ls[k], l);
        lemma_first_listener(ls, l, k);
    }
}

/// A listener that watches every one of `props` is among those selected for them.
proof fn lemma_watching_all_contains(ls: Seq<SyncSettingsView>, props: Seq<Seq<char>>, i: int)
    requires
        0 <= i < ls.len(),
        watches_all(ls[i], props),
    ensures
        watching_all(ls, props).contains(ls[i]),
    decreases ls.len(),
{
    if i == ls.len() - 1 {
        assert(watching_all(ls, props) == watching_all(ls.drop_last(), props).push(ls.last()));
        assert(watching_all(ls, props).last() == ls[i]);
    } else {
        lemma_watching_all_contains(ls.drop_last(), props, i);
        let rest = watching_all(ls.drop_last(), props);
        let k = choose|k: int| 0 <= k < rest.len() && rest[k] == ls[i];
        if watches_all(ls.last(), props) {
            assert(watching_all(ls, props)[k] == ls[i]);
        }
    }
}

/// Every listener selected for a module is one of the given listeners.
proof fn lemma_of_module_subset(ls: Seq<SyncSettingsView>, m: SyncAndMonitorModule, x: SyncSettingsView)
    requires
        of_module(ls, m).contains(x),
    ensures
        ls.contains(x),
    decreases ls.len(),
{
    if ls.len() > 0 {
        let rest = of_module(ls.drop_last(), m);
        if ls.last() == x {
            assert(ls[ls.len() - 1] == x);
        } else {
            if ls.last().module == m {
                let k = choose|k: int| 0 <= k < of_module(ls, m).len() && of_module(ls, m)[k] == x;
                assert(rest.contains(x)) by {
                    assert(k < rest.len());
                    assert(rest[k] == x);
                }
            }
            lemma_of_module_subset(ls.drop_last(), m, x);
            let k = choose|k: int| 0 <= k < ls.drop_last().len() && ls.drop_last()[k] == x;
            assert(ls[k] == x);
        }
    }
}

/// Reading the distributor token gives back the token last written.
pub proof fn law_token_read_after_write(s: GatewayStateView, token: Seq<char>)
    ensures
        step(step(s, StateRequestView::SetDistributorToken(token)).0, StateRequestView::GetDistributorToken).1
            == StateReplyView::Token(token),
{
}

/// Reading the linchpin connection status gives back the status last written.
pub proof fn law_connection_status_read_after_write(s: GatewayStateView, connected: bool)
    ensures
        step(
            step(s, StateRequestView::SetLinchpinConnectionStatus(connected)).0,
            StateRequestView::GetLinchpinConnectionStatus,
        ).1 == StateReplyView::ConnectionStatus(connected),
{
}

/// A topic put aside while the connection is down is listed last among the pending topics.
pub proof fn law_pending_topic_listed(s: GatewayStateView, topic: Seq<char>)
    ensures
        step(step(s, StateRequestView::AddPendingTopic(topic)).0, StateRequestView::GetAllPendingTopics).1
            == StateReplyView::Topics(s.pending.push(topic)),
{
}

/// After the pending topics are cleared, none is listed.
pub proof fn law_pending_topics_cleared(s: GatewayStateView)
    ensures
        step(step(s, StateRequestView::ClearPendingTopics).0, StateRequestView::GetAllPendingTopics).1
            == StateReplyView::Topics(Seq::empty()),
{
}

/// After a listener is added, asking its topic for the listeners of its
/// properties finds the same listener.
pub proof fn law_added_listener_found(s: GatewayStateView, l: SyncSettingsView)
    ensures
        ({
            let s1 = step(s, StateRequestView::AddListener(l)).0;
            let r = step(
                s1,
                StateRequestView::GetListenersForProperties(l.cloud_monitor_topic, l.settings),
            ).1;
            exists|k: int| #![trigger r->Listeners_0[k]]
                0 <= k < r->Listeners_0.len() && same_listener(r->Listeners_0[k], l)
        }),
{
    let t = l.cloud_monitor_topic;
    let s1 = add_listener(s, l);
    lemma_topic_pos(s.entries, t);
    let p = topic_pos(s.entries, t);
    let ls1 = listeners_of(s1, t);
    let rr = step(s1, StateRequestView::GetListenersForProperties(t, l.settings)).1;
    assert(s1 == step(s, StateRequestView::AddListener(l)).0);
    assert(rr->Listeners_0 == watching_all(ls1, l.settings));
    assert(watches_all(l, l.settings));
    if p >= 0 {
        let e = s.entries[p];
        lemma_listener_pos(e.listeners, l);
        let q = listener_pos(e.listeners, l);
        if q >= 0 {
            assert(s1 == s);
            assert(watches_all(e.listeners[q], l.settings));
            lemma_watching_all_contains(e.listeners, l.settings, q);
            let r = watching_all(ls1, l.settings);
            let k = choose|k: int| 0 <= k < r.len() && r[k] == e.listeners[q];
            assert(same_listener(rr->Listeners_0[k], l));
        } else {
            assert(s1.entries[p].topic == t);
            assert(topic_pos(s1.entries, t) == p) by {
                assert(forall|j: int| 0 <= j < p ==> s1.entries[j].topic == s.entries[j].topic);
            }
            let nl = e.listeners.push(l);
            assert(ls1 == nl);
            assert(nl[nl.len() - 1] == l);
            lemma_watching_all_contains(nl, l.settings, nl.len() - 1);
            let r = watching_all(ls1, l.settings);
            let k = choose|k: int| 0 <= k < r.len() && r[k] == l;
            assert(same_listener(rr->Listeners_0[k], l));
        }
    } else {
        let n = s.entries.len() as int;
        assert(s1.entries[n].topic == t);
        assert(topic_pos(s1.entries, t) == n) by {
            assert(forall|j: int| 0 <= j < n ==> s1.entries[j].topic == s.entries[j].topic);
        }
        assert(ls1 == seq![l]);
        lemma_watching_all_contains(ls1, l.settings, 0);
        let r = watching_all(ls1, l.settings);
        let k = choose|k: int| 0 <= k < r.len() && r[k] == l;
        assert(same_listener(rr->Listeners_0[k], l));
    }
}

/// After a listener is added, its topic is among the listening topics.
pub proof fn law_added_listener_topic_listed(s: GatewayStateView, l: SyncSettingsView)
    ensures
        ({
            let s1 = step(s, StateRequestView::AddListener(l)).0;
            step(s1, StateRequestView::GetListeningTopics).1->Topics_0.contains(l.cloud_monitor_topic)
        }),
{
    let t = l.cloud_monitor_topic;
    let s1 = add_listener(s, l);
    lemma_topic_pos(s.entries, t);
    let p = topic_pos(s.entries, t);
    let ts = listening_topics(s1);
    if p >= 0 {
        assert(s1.entries[p].topic == t);
        assert(ts[p] == t);
    } else {
        let n = s.entries.len() as int;
        assert(ts[n] == t);
    }
}

/// Every state change keeps the state well formed.
pub proof fn law_step_keeps_wf(s: GatewayStateView, r: StateRequestView)
    requires
        state_wf(s),
    ensures
        state_wf(step(s, r).0),
{
    match r {
        StateRequestView::AddListener(l) => {
            let t = l.cloud_monitor_topic;
            lemma_topic_pos(s.entries, t);
            let p = topic_pos(s.entries, t);
            let s1 = add_listener(s, l);
            if p >= 0 {
                let e = s.entries[p];
                lemma_listener_pos(e.listeners, l);
                if listener_pos(e.listeners, l) < 0 {
                    let nl = e.listeners.push(l);
                    assert forall|i: int, k1: int, k2: int|
                        0 <= i < s1.entries.len() && 0 <= k1 < k2 < s1.entries[i].listeners.len()
                        implies !same_listener(
                        #[trigger] s1.entries[i].listeners[k1],
                        #[trigger] s1.entries[i].listeners[k2],
                    ) by {
                        if i == p && k2 == nl.len() - 1 {
                            assert(!same_listener(e.listeners[k1], l));
                        }
                    }
                }
            } else {
                let n = s.entries.len() as int;
                assert forall|i: int, j: int|
                    0 <= i < j < s1.entries.len() implies s1.entries[i].topic != s1.entries[j].topic by {
                    if j == n {
                        assert(s.entries[i].topic != t);
                    }
                }
            }
        },
        StateRequestView::RemoveListener(l) => {
            let t = l.cloud_monitor_topic;
            lemma_topic_pos(s.entries, t);
            let p = topic_pos(s.entries, t);
            let s1 = remove_listener(s, l);
            if p >= 0 {
                let e = s.entries[p];
                lemma_listener_pos(e.listeners, l);
                let q = listener_pos(e.listeners, l);
                if q >= 0 {
                    let nl = e.listeners.remove(q);
                    assert forall|k: int| 0 <= k < nl.len() implies
                        #[trigger] nl[k] == (if k < q { e.listeners[k] } else { e.listeners[k + 1] }) by {}
                    assert forall|i: int, k1: int, k2: int|
                        0 <= i < s1.entries.len() && 0 <= k1 < k2 < s1.entries[i].listeners.len()
                        implies !same_listener(
                        #[trigger] s1.entries[i].listeners[k1],
                        #[trigger] s1.entries[i].listeners[k2],
                    ) by {
                        if i == p {
                            let a = if k1 < q { k1 } else { k1 + 1 };
                            let b = if k2 < q { k2 } else { k2 + 1 };
                            assert(nl[k1] == e.listeners[a]);
                            assert(nl[k2] == e.listeners[b]);
                            assert(!same_listener(e.listeners[a], e.listeners[b]));
                        }
                    }
                    assert forall|i: int, k: int|
                        0 <= i < s1.entries.len() && 0 <= k < s1.entries[i].listeners.len()
                        implies (#[trigger] s1.entries[i].listeners[k]).cloud_monitor_topic == s1.entries[i].topic by {
                        if i == p {
                            let a = if k < q { k } else { k + 1 };
                            assert(nl[k] == e.listeners[a]);
                        }
                    }
                }
            }
        },
        _ => {},
    }
}

/// After a listener is removed from a well-formed state, its topic no longer
/// holds the same listener.
pub proof fn law_removed_listener_gone(s: GatewayStateView, l: SyncSettingsView)
    requires
        state_wf(s),
    ensures
        ({
            let ls = listeners_of(step(s, StateRequestView::RemoveListener(l)).0, l.cloud_monitor_topic);
            forall|k: int| 0 <= k < ls.len() ==> !same_listener(#[trigger] ls[k], l)
        }),
{
    let t = l.cloud_monitor_topic;
    lemma_topic_pos(s.entries, t);
    let p = topic_pos(s.entries, t);
    let s1 = remove_listener(s, l);
    let ls = listeners_of(s1, t);
    if p >= 0 {
        let e = s.entries[p];
        assert(topic_pos(s1.entries, t) == p) by {
            assert(forall|j: int| 0 <= j < s.entries.len() ==> s1.entries[j].topic == s.entries[j].topic);
        }
        lemma_listener_pos(e.listeners, l);
        let q = listener_pos(e.listeners, l);
        if q >= 0 {
            let nl = e.listeners.remove(q);
            assert(ls == nl);
            assert forall|k: int| 0 <= k < ls.len() implies !same_listener(#[trigger] ls[k], l) by {
                let a = if k < q { k } else { k + 1 };
                assert(nl[k] == e.listeners[a]);
                assert(a != q);
                if a < q {
                    assert(!same_listener(e.listeners[a], e.listeners[q]));
                } else {
                    assert(!same_listener(e.listeners[q], e.listeners[a]));
                }
            }
        } else {
            assert(s1 == s);
        }
    } else {
        assert(s1 == s);
        assert(ls.len() == 0);
    }
}

/// A fresh state is well formed.
pub proof fn law_new_state_wf(s: GatewayStateView)
    requires
        s.entries.len() == 0,
    ensures
        state_wf(s),
{
}

/// How the token, the connection status and the pending topics come out of a
/// run of requests.
proof fn lemma_run_scalars(s: GatewayStateView, reqs: Seq<StateRequestView>)
    ensures
        run(s, reqs).token == last_token(reqs, s.token),
        run(s, reqs).connected == last_status(reqs, s.connected),
        run(s, reqs).pending == pending_after(s.pending, reqs),
    decreases reqs.len(),
{
    if reqs.len() > 0 {
        lemma_run_scalars(s, reqs.drop_last());
    }
}

/// Reading the distributor token after any run of requests from the start
/// gives the token of the last `SetDistributorToken`, or the empty text.
pub proof fn law_token_over_run(reqs: Seq<StateRequestView>)
    ensures
        step(run(initial_state(), reqs), StateRequestView::GetDistributorToken).1
            == StateReplyView::Token(last_token(reqs, Seq::empty())),
{
    lemma_run_scalars(initial_state(), reqs);
}

/// Reading the linchpin connection status after any run of requests from the
/// start gives the status of the last `SetLinchpinConnectionStatus`, or `false`.
pub proof fn law_connection_status_over_run(reqs: Seq<StateRequestView>)
    ensures
        step(run(initial_state(), reqs), StateRequestView::GetLinchpinConnectionStatus).1
            == StateReplyView::ConnectionStatus(last_status(reqs, false)),
{
    lemma_run_scalars(initial_state(), reqs);
}

/// Reading the pending topics after any run of requests from the start gives
/// the topics added since the last clear, in order, repetitions kept.
pub proof fn law_pending_topics_over_run(reqs: Seq<StateRequestView>)
    ensures
        step(run(initial_state(), reqs), StateRequestView::GetAllPendingTopics).1
            == StateReplyView::Topics(pending_after(Seq::empty(), reqs)),
{
    lemma_run_scalars(initial_state(), reqs);
}

/// The first entry for `t` is at `i`.
proof fn lemma_topic_pos_is(entries: Seq<TopicEntryView>, t: Seq<char>, i: int)
    requires
        0 <= i < entries.len(),
        entries[i].topic == t,
        forall|j: int| 0 <= j < i ==> entries[j].topic != t,
    ensures
        topic_pos(entries, t) == i,
{
    lemma_topic_pos(entries, t);
    let c = topic_pos(entries, t);
    assert(c >= 0);
    assert(forall|j: int| 0 <= j < c ==> entries[j].topic != t);
    if c < i {
        assert(entries[c].topic == t);
    }
    if c > i {
        assert(entries[i].topic != t);
    }
}

/// Entries with the same topics, place by place, have the same position for each topic.
proof fn lemma_topic_pos_same_topics(e1: Seq<TopicEntryView>, e2: Seq<TopicEntryView>, t: Seq<char>)
    requires
        e1.len() == e2.len(),
        forall|j: int| 0 <= j < e1.len() ==> e1[j].topic == e2[j].topic,
    ensures
        topic_pos(e1, t) == topic_pos(e2, t),
{
    lemma_topic_pos(e1, t);
    lemma_topic_pos(e2, t);
    let c = topic_pos(e1, t);
    if c >= 0 {
        assert(forall|j: int| 0 <= j < c ==> e1[j].topic != t);
        lemma_topic_pos_is(e2, t, c);
    } else {
        if topic_pos(e2, t) >= 0 {
            assert(e1[topic_pos(e2, t)].topic == t);
        }
    }
}

/// The listeners of each topic after adding `l`.
proof fn lemma_listeners_after_add(s: GatewayStateView, l: SyncSettingsView, t: Seq<char>)
    ensures
        listeners_of(add_listener(s, l), t) == (if t == l.cloud_monitor_topic && listener_pos(
            listeners_of(s, t),
            l,
        ) < 0 {
            listeners_of(s, t).push(l)
        } else {
            listeners_of(s, t)
        }),
{
    let lt = l.cloud_monitor_topic;
    lemma_topic_pos(s.entries, lt);
    lemma_topic_pos(s.entries, t);
    let p = topic_pos(s.entries, lt);
    let s1 = add_listener(s, l);
    if p >= 0 {
        let e = s.entries[p];
        if listener_pos(e.listeners, l) < 0 {
            lemma_topic_pos_same_topics(s.entries, s1.entries, t);
        }
    } else {
        let n = s.entries.len() as int;
        assert(s1.entries.len() == n + 1);
        assert(forall|j: int| 0 <= j < n ==> s1.entries[j] == s.entries[j]);
        if t == lt {
            lemma_topic_pos_is(s1.entries, t, n);
            assert(listeners_of(s, t) == Seq::<SyncSettingsView>::empty());
            lemma_listener_pos(listeners_of(s, t), l);
            assert(seq![l] =~= Seq::<SyncSettingsView>::empty().push(l));
        } else {
            let c = topic_pos(s.entries, t);
            if c >= 0 {
                lemma_topic_pos_is(s1.entries, t, c);
            } else {
                lemma_topic_pos(s1.entries, t);
                if topic_pos(s1.entries, t) >= 0 {
                    assert(s1.entries[topic_pos(s1.entries, t)].topic == t);
                }
            }
        }
    }
}

/// The listeners of each topic after removing `l`.
proof fn lemma_listeners_after_remove(s: GatewayStateView, l: SyncSettingsView, t: Seq<char>)
    ensures
        listeners_of(remove_listener(s, l), t) == (if t == l.cloud_monitor_topic && listener_pos(
            listeners_of(s, t),
            l,
        ) >= 0 {
            listeners_of(s, t).remove(listener_pos(listeners_of(s, t), l))
        } else {
            listeners_of(s, t)
        }),
{
    let lt = l.cloud_monitor_topic;
    lemma_topic_pos(s.entries, lt);
    lemma_topic_pos(s.entries, t);
    let p = topic_pos(s.entries, lt);
    let s1 = remove_listener(s, l);
    if p >= 0 {
        let e = s.entries[p];
        if listener_pos(e.listeners, l) >= 0 {
            lemma_topic_pos_same_topics(s.entries, s1.entries, t);
        }
    } else {
        if t == lt {
            assert(listeners_of(s, t) == Seq::<SyncSettingsView>::empty());
            lemma_listener_pos(listeners_of(s, t), l);
        }
    }
}

/// Whether no two of `ls` are the same listener.
pub open spec fn distinct_listeners(ls: Seq<SyncSettingsView>) -> bool {
    forall|i: int, j: int|
        0 <= i < j < ls.len() ==> !same_listener(#[trigger] ls[i], #[trigger] ls[j])
}

/// In a well-formed state the listeners of a topic sit under that topic and
/// are distinct.
proof fn lemma_wf_listeners(s: GatewayStateView, t: Seq<char>)
    requires
        state_wf(s),
    ensures
        distinct_listeners(listeners_of(s, t)),
        forall|k: int|
            0 <= k < listeners_of(s, t).len() ==> (#[trigger] listeners_of(s, t)[k]).cloud_monitor_topic == t,
{
    lemma_topic_pos(s.entries, t);
    let p = topic_pos(s.entries, t);
    if p >= 0 {
        let ls = s.entries[p].listeners;
        assert forall|i: int, j: int| 0 <= i < j < ls.len() implies !same_listener(#[trigger] ls[i], #[trigger] ls[j]) by {
            assert(!same_listener(s.entries[p].listeners[i], s.entries[p].listeners[j]));
        }
        assert forall|k: int| 0 <= k < ls.len() implies (#[trigger] ls[k]).cloud_monitor_topic == t by {
            assert(s.entries[p].listeners[k].cloud_monitor_topic == s.entries[p].topic);
        }
    }
}

/// How a request changes whether a listener that is the same as `m` is held.
proof fn lemma_step_holds(s: GatewayStateView, r: StateRequestView, m: SyncSettingsView)
    requires
        state_wf(s),
    ensures
        r matches StateRequestView::AddListener(x) ==> holds(step(s, r).0, m) == (same_listener(x, m)
            || holds(s, m)),
        r matches StateRequestView::RemoveListener(x) ==> holds(step(s, r).0, m) == (!same_listener(x, m)
            && holds(s, m)),
        !(r is AddListener) && !(r is RemoveListener) ==> holds(step(s, r).0, m) == holds(s, m),
{
    let t = m.cloud_monitor_topic;
    let ls = listeners_of(s, t);
    let s1 = step(s, r).0;
    match r {
        StateRequestView::AddListener(x) => {
            lemma_listeners_after_add(s, x, t);
            lemma_listener_pos(ls, x);
            let ls1 = listeners_of(s1, t);
            if t == x.cloud_monitor_topic && listener_pos(ls, x) < 0 {
                assert(ls1 == ls.push(x));
                if same_listener(x, m) {
                    assert(same_listener(ls1[ls.len() as int], m));
                } else {
                    if holds(s, m) {
                        let k = choose|k: int| 0 <= k < ls.len() && #[trigger] same_listener(ls[k], m);
                        assert(same_listener(ls1[k], m));
                    }
                    if holds(s1, m) {
                        let k = choose|k: int| 0 <= k < ls1.len() && #[trigger] same_listener(ls1[k], m);
                        assert(k < ls.len());
                        assert(same_listener(ls[k], m));
                    }
                }
            } else {
                assert(ls1 == ls);
                if same_listener(x, m) {
                    let q = listener_pos(ls, x);
                    assert(same_listener(ls[q], m));
                } else if holds(s1, m) {
                    let k = choose|k: int| 0 <= k < ls1.len() && #[trigger] same_listener(ls1[k], m);
                    assert(same_listener(ls[k], m));
                }
            }
        },
        StateRequestView::RemoveListener(x) => {
            lemma_listeners_after_remove(s, x, t);
            lemma_listener_pos(ls, x);
            lemma_wf_listeners(s, t);
            let ls1 = listeners_of(s1, t);
            if t == x.cloud_monitor_topic && listener_pos(ls, x) >= 0 {
                let q = listener_pos(ls, x);
                assert(ls1 == ls.remove(q));
                assert forall|k: int| 0 <= k < ls1.len() implies #[trigger] ls1[k] == (if k < q {
                    ls[k]
                } else {
                    ls[k + 1]
                }) by {}
                if same_listener(x, m) {
                    if holds(s1, m) {
                        let k = choose|k: int| 0 <= k < ls1.len() && #[trigger] same_listener(ls1[k], m);
                        let a = if k < q { k } else { k + 1 };
                        assert(ls1[k] == ls[a]);
                        if a < q {
                            assert(!same_listener(ls[a], ls[q]));
                        } else {
                            assert(!same_listener(ls[q], ls[a]));
                        }
                    }
                } else {
                    if holds(s, m) {
                        let k = choose|k: int| 0 <= k < ls.len() && #[trigger] same_listener(ls[k], m);
                        assert(k != q);
                        let b = if k < q { k } else { k - 1 };
                        assert(ls1[b] == ls[k]);
                        assert(same_listener(ls1[b], m));
                    }
                    if holds(s1, m) {
                        let k = choose|k: int| 0 <= k < ls1.len() && #[trigger] same_listener(ls1[k], m);
                        let a = if k < q { k } else { k + 1 };
                        assert(ls1[k] == ls[a]);
                        assert(same_listener(ls[a], m));
                    }
                }
            } else {
                assert(ls1 == ls);
                if same_listener(x, m) {
                    if holds(s, m) {
                        let k = choose|k: int| 0 <= k < ls.len() && #[trigger] same_listener(ls[k], m);
                        assert(same_listener(ls[k], x));
                    }
                }
            }
        },
        _ => {
            assert(s1.entries == s.entries);
            assert(listeners_of(s1, t) == ls);
        },
    }
}

/// After any run of requests from the start the state is well formed, and a
/// listener is held exactly when it stands registered.
proof fn lemma_run_listeners(reqs: Seq<StateRequestView>)
    ensures
        state_wf(run(initial_state(), reqs)),
        forall|m: SyncSettingsView| #[trigger] holds(run(initial_state(), reqs), m) == registered(reqs, m),
    decreases reqs.len(),
{
    if reqs.len() == 0 {
        assert forall|m: SyncSettingsView| #[trigger] holds(run(initial_state(), reqs), m) == registered(reqs, m) by {
            lemma_topic_pos(initial_state().entries, m.cloud_monitor_topic);
        }
    } else {
        let rest = reqs.drop_last();
        lemma_run_listeners(rest);
        let s = run(initial_state(), rest);
        law_step_keeps_wf(s, reqs.last());
        assert forall|m: SyncSettingsView| #[trigger] holds(run(initial_state(), reqs), m) == registered(reqs, m) by {
            lemma_step_holds(s, reqs.last(), m);
            assert(holds(s, m) == registered(rest, m));
        }
    }
}

/// The listeners selected for `props` are among `ls` and watch every one of `props`.
proof fn lemma_watching_all_from(ls: Seq<SyncSettingsView>, props: Seq<Seq<char>>)
    ensures
        forall|k: int|
            0 <= k < watching_all(ls, props).len() ==> exists|i: int|
                0 <= i < ls.len() && #[trigger] watching_all(ls, props)[k] == ls[i],
        forall|k: int|
            0 <= k < watching_all(ls, props).len() ==> watches_all(#[trigger] watching_all(ls, props)[k], props),
    decreases ls.len(),
{
    if ls.len() > 0 {
        let rest_ls = ls.drop_last();
        lemma_watching_all_from(rest_ls, props);
        let rest = watching_all(rest_ls, props);
        let w = watching_all(ls, props);
        assert forall|k: int| 0 <= k < w.len() implies exists|i: int|
            0 <= i < ls.len() && #[trigger] w[k] == ls[i] by {
            if k < rest.len() {
                let i = choose|i: int| 0 <= i < rest_ls.len() && #[trigger] rest[k] == rest_ls[i];
                assert(w[k] == ls[i]);
            } else {
                assert(w[k] == ls[ls.len() - 1]);
            }
        }
        assert forall|k: int| 0 <= k < w.len() implies watches_all(#[trigger] w[k], props) by {
            if k < rest.len() {
                assert(w[k] == rest[k]);
            }
        }
    }
}

/// Selecting the listeners for `props` keeps distinct listeners distinct.
proof fn lemma_watching_all_distinct(ls: Seq<SyncSettingsView>, props: Seq<Seq<char>>)
    requires
        distinct_listeners(ls),
    ensures
        distinct_listeners(watching_all(ls, props)),
    decreases ls.len(),
{
    if ls.len() > 0 {
        let rest_ls = ls.drop_last();
        assert(distinct_listeners(rest_ls)) by {
            assert forall|i: int, j: int| 0 <= i < j < rest_ls.len() implies !same_listener(
                #[trigger] rest_ls[i],
                #[trigger] rest_ls[j],
            ) by {
                assert(rest_ls[i] == ls[i] && rest_ls[j] == ls[j]);
            }
        }
        lemma_watching_all_distinct(rest_ls, props);
        lemma_watching_all_from(rest_ls, props);
        let rest = watching_all(rest_ls, props);
        let w = watching_all(ls, props);
        if watches_all(ls.last(), props) {
            let n = ls.len() - 1;
            assert forall|i: int, j: int| 0 <= i < j < w.len() implies !same_listener(
                #[trigger] w[i],
                #[trigger] w[j],
            ) by {
                if j == rest.len() {
                    let a = choose|a: int| 0 <= a < rest_ls.len() && #[trigger] rest[i] == rest_ls[a];
                    assert(w[i] == ls[a]);
                    assert(w[j] == ls[n]);
                    assert(!same_listener(ls[a], ls[n]));
                } else {
                    assert(w[i] == rest[i] && w[j] == rest[j]);
                }
            }
        }
    }
}

/// Asking, after any run of requests from the start, for the listeners of
/// `topic` that watch every one of `props` gives distinct listeners, each of
/// them of `topic`, watching every one of `props` and standing registered; and
/// every registered listener of `topic` that watches every one of `props` is
/// among them (as the same listener). So none is given for a topic that never
/// had a listener added.
pub proof fn law_listeners_over_run(reqs: Seq<StateRequestView>, topic: Seq<char>, props: Seq<Seq<char>>)
    ensures
        ({
            let l = step(run(initial_state(), reqs), StateRequestView::GetListenersForProperties(topic, props)).1->Listeners_0;
            &&& distinct_listeners(l)
            &&& forall|k: int| 0 <= k < l.len() ==> {
                &&& (#[trigger] l[k]).cloud_monitor_topic == topic
                &&& watches_all(l[k], props)
                &&& registered(reqs, l[k])
            }
            &&& forall|m: SyncSettingsView|
                m.cloud_monitor_topic == topic && watches_all(m, props) && #[trigger] registered(reqs, m)
                    ==> exists|k: int| 0 <= k < l.len() && #[trigger] same_listener(l[k], m)
        }),
{
    lemma_run_listeners(reqs);
    let s = run(initial_state(), reqs);
    let ls = listeners_of(s, topic);
    let l = watching_all(ls, props);
    assert(step(s, StateRequestView::GetListenersForProperties(topic, props)).1->Listeners_0 == l);
    lemma_wf_listeners(s, topic);
    lemma_watching_all_distinct(ls, props);
    lemma_watching_all_from(ls, props);
    assert forall|k: int| 0 <= k < l.len() implies {
        &&& (#[trigger] l[k]).cloud_monitor_topic == topic
        &&& watches_all(l[k], props)
        &&& registered(reqs, l[k])
    } by {
        let i = choose|i: int| 0 <= i < ls.len() && #[trigger] l[k] == ls[i];
        assert(ls[i].cloud_monitor_topic == topic);
        assert(same_listener(ls[i], l[k]));
        assert(holds(s, l[k]));
    }
    assert forall|m: SyncSettingsView|
        m.cloud_monitor_topic == topic && watches_all(m, props) && #[trigger] registered(reqs, m) implies exists|k: int|
        0 <= k < l.len() && #[trigger] same_listener(l[k], m) by {
        assert(holds(s, m));
        let i = choose|i: int| 0 <= i < ls.len() && #[trigger] same_listener(ls[i], m);
        assert(ls[i].settings == m.settings);
        assert(watches_all(ls[i], props));
        lemma_watching_all_contains(ls, props, i);
        let k = choose|k: int| 0 <= k < l.len() && l[k] == ls[i];
        assert(same_listener(l[k], m));
    }
}

/// Every listener of module `m` among `ls` is among those selected for `m`.
proof fn lemma_of_module_contains(ls: Seq<SyncSettingsView>, m: SyncAndMonitorModule, i: int)
    requires
        0 <= i < ls.len(),
        ls[i].module == m,
    ensures
        of_module(ls, m).contains(ls[i]),
    decreases ls.len(),
{
    if i == ls.len() - 1 {
        assert(of_module(ls, m) == of_module(ls.drop_last(), m).push(ls.last()));
        assert(of_module(ls, m).last() == ls[i]);
    } else {
        lemma_of_module_contains(ls.drop_last(), m, i);
        let rest = of_module(ls.drop_last(), m);
        let k = choose|k: int| 0 <= k < rest.len() && rest[k] == ls.drop_last()[i];
        assert(ls.drop_last()[i] == ls[i]);
        if ls.last().module == m {
            assert(of_module(ls, m)[k] == ls[i]);
        }
    }
}

/// Every listener selected for `m` is of module `m`.
proof fn lemma_of_module_module(ls: Seq<SyncSettingsView>, m: SyncAndMonitorModule, x: SyncSettingsView)
    requires
        of_module(ls, m).contains(x),
    ensures
        x.module == m,
    decreases ls.len(),
{
    if ls.len() > 0 {
        let rest = of_module(ls.drop_last(), m);
        let k = choose|k: int| 0 <= k < of_module(ls, m).len() && of_module(ls, m)[k] == x;
        if ls.last().module == m && k == rest.len() {
        } else {
            assert(rest[k] == x);
            lemma_of_module_module(ls.drop_last(), m, x);
        }
    }
}

/// Asking a topic for the listeners of a module gives exactly the listeners
/// of that topic that belong to the module: every one of them, and no other.
pub proof fn law_module_query_exact(s: GatewayStateView, topic: Seq<char>, m: SyncAndMonitorModule, x: SyncSettingsView)
    ensures
        step(s, StateRequestView::GetListenersForModule(topic, m)).1->Listeners_0.contains(x) == (
        listeners_of(s, topic).contains(x) && x.module == m),
{
    let ls = listeners_of(s, topic);
    let r = step(s, StateRequestView::GetListenersForModule(topic, m)).1->Listeners_0;
    assert(r == of_module(ls, m));
    if ls.contains(x) && x.module == m {
        let i = choose|i: int| 0 <= i < ls.len() && ls[i] == x;
        lemma_of_module_contains(ls, m, i);
    }
    if r.contains(x) {
        lemma_of_module_subset(ls, m, x);
        lemma_of_module_module(ls, m, x);
    }
}

/// Adding a listener keeps every listener the state already held, and holds
/// the added one (or the same listener already there).
pub proof fn law_add_keeps_listeners(s: GatewayStateView, l: SyncSettingsView, t: Seq<char>, x: SyncSettingsView)
    requires
        state_wf(s),
    ensures
        listeners_of(s, t).contains(x) ==> listeners_of(step(s, StateRequestView::AddListener(l)).0, t).contains(x),
        !holds(s, l) ==> listeners_of(step(s, StateRequestView::AddListener(l)).0, l.cloud_monitor_topic).contains(l),
{
    lemma_listeners_after_add(s, l, t);
    lemma_listeners_after_add(s, l, l.cloud_monitor_topic);
    let ls = listeners_of(s, t);
    if listeners_of(s, t).contains(x) {
        let i = choose|i: int| 0 <= i < ls.len() && ls[i] == x;
        if t == l.cloud_monitor_topic && listener_pos(ls, l) < 0 {
            assert(ls.push(l)[i] == x);
        }
    }
    let lt = listeners_of(s, l.cloud_monitor_topic);
    lemma_listener_pos(lt, l);
    if !holds(s, l) {
        if listener_pos(lt, l) >= 0 {
            assert(same_listener(lt[listener_pos(lt, l)], l));
        }
        assert(lt.push(l)[lt.len() as int] == l);
    }
}

/// After listeners of a module are added to a topic, one after the other and
/// none the same as a listener already held, asking the topic for the module
/// gives every one of them.
pub proof fn law_added_module_listeners_found(s: GatewayStateView, a: SyncSettingsView, b: SyncSettingsView)
    requires
        state_wf(s),
        !holds(s, a),
        !same_listener(a, b),
        !holds(s, b),
        a.cloud_monitor_topic == b.cloud_monitor_topic,
        a.module == b.module,
    ensures
        ({
            let s2 = step(step(s, StateRequestView::AddListener(a)).0, StateRequestView::AddListener(b)).0;
            let r = step(s2, StateRequestView::GetListenersForModule(a.cloud_monitor_topic, a.module)).1->Listeners_0;
            r.contains(a) && r.contains(b)
        }),
{
    let t = a.cloud_monitor_topic;
    let s1 = step(s, StateRequestView::AddListener(a)).0;
    let s2 = step(s1, StateRequestView::AddListener(b)).0;
    law_add_keeps_listeners(s, a, t, a);
    law_step_keeps_wf(s, StateRequestView::AddListener(a));
    lemma_step_holds(s, StateRequestView::AddListener(a), b);
    law_add_keeps_listeners(s1, b, t, a);
    law_module_query_exact(s2, t, a.module, a);
    law_module_query_exact(s2, t, a.module, b);
}
} // verus!
