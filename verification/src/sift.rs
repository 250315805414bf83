use vstd::prelude::*;

use queues::{CircularBuffer, IsQueue};

use crate::config::{event_name_alias, event_path, MetricsSchemas};
use crate::metrics::{
    badger_2_pabs, badger_pabs, base_event_name, fb_2_pabs, fits_collector, is_pabs_of,
    spec_is_badger, AXPMetric, AppBehavioralMetric, AppContext, BadgerMetrics,
};
use crate::model::{copy_strings, views};
use crate::text::concat;

verus! {

#[verifier::external_type_specification]
#[verifier::external_body]
#[verifier::reject_recursive_types(T)]
pub struct ExCircularBuffer<T: Clone>(CircularBuffer<T>);

/// The rendered metrics held by a queue, oldest first.
pub uninterp spec fn queue_items(q: CircularBuffer<String>) -> Seq<String>;

/// The capacity that a queue was made with.
pub uninterp spec fn queue_capacity(q: CircularBuffer<String>) -> nat;

/// The default value that a queue was made with, if any.
pub uninterp spec fn queue_default(q: CircularBuffer<String>) -> Option<String>;

/// `CircularBuffer::new`: an empty queue of the given capacity, without default value.
#[verifier::external_body]
fn queue_new(capacity: usize) -> (q: CircularBuffer<String>)
    ensures
        queue_items(q) == Seq::<String>::empty(),
        queue_capacity(q) == capacity,
        queue_default(q) == None::<String>,
{
    CircularBuffer::new(capacity)
}

/// `IsQueue::add` of `CircularBuffer`: the value joins at the end; when the
/// queue already held its capacity, the oldest value leaves and is returned.
#[verifier::external_body]
fn queue_add(q: &mut CircularBuffer<String>, val: String) -> (r: Option<String>)
    ensures
        queue_capacity(*final(q)) == queue_capacity(*old(q)),
        queue_default(*final(q)) == queue_default(*old(q)),
        queue_items(*old(q)).len() < queue_capacity(*old(q)) ==> queue_items(*final(q))
            == queue_items(*old(q)).push(val) && r is None,
        queue_items(*old(q)).len() >= queue_capacity(*old(q)) ==> queue_items(*final(q))
            == queue_items(*old(q)).push(val).drop_first() && r == Some(
            queue_items(*old(q)).push(val)[0],
        ),
{
    match q.add(val) {
        Ok(removed) => removed,
        Err(_) => None,
    }
}

/// `IsQueue::remove` of `CircularBuffer`: the oldest value leaves and is
/// returned (a queue made with a default value takes that value in at the end);
/// an empty queue stays as it is and gives nothing.
#[verifier::external_body]
fn queue_remove(q: &mut CircularBuffer<String>) -> (r: Option<String>)
    ensures
        queue_capacity(*final(q)) == queue_capacity(*old(q)),
        queue_default(*final(q)) == queue_default(*old(q)),
        queue_items(*old(q)).len() == 0 ==> r is None && queue_items(*final(q)) == queue_items(
            *old(q),
        ),
        queue_items(*old(q)).len() > 0 ==> r == Some(queue_items(*old(q))[0]) && queue_items(
            *final(q),
        ) == (match queue_default(*old(q)) {
            Some(d) => queue_items(*old(q)).push(d).drop_first(),
            None => queue_items(*old(q)).drop_first(),
        }),
{
    match q.remove() {
        Ok(v) => Some(v),
        Err(_) => None,
    }
}

/// `IsQueue::size` of `CircularBuffer`: the number of values held.
#[verifier::external_body]
fn queue_size(q: &CircularBuffer<String>) -> (r: usize)
    ensures
        r == queue_items(*q).len(),
{
    q.size()
}

/// The queue that rendered metrics wait in before they are sent: empty, with
/// room for the configured number of metrics and no default value.
pub fn metrics_queue(max_queue_size: u8) -> (q: CircularBuffer<String>)
    ensures
        queue_items(q) == Seq::<String>::empty(),
        queue_capacity(q) == max_queue_size,
        queue_default(q) is None,
{
    queue_new(max_queue_size as usize)
}

/// The queue after adding `val` to a queue holding `items` with capacity `cap`.
pub open spec fn queue_after_add(items: Seq<String>, cap: nat, val: String) -> Seq<String> {
    if items.len() < cap {
        items.push(val)
    } else {
        items.push(val).drop_first()
    }
}

/// Puts a rendered metric in the send queue; when the queue is full the oldest metric is dropped.
pub fn enqueue_metric(queue: &mut CircularBuffer<String>, metric: String)
    ensures
        queue_items(*final(queue)) == queue_after_add(
            queue_items(*old(queue)),
            queue_capacity(*old(queue)),
            metric,
        ),
        queue_capacity(*final(queue)) == queue_capacity(*old(queue)),
        queue_default(*final(queue)) == queue_default(*old(queue)),
{
    let _ = queue_add(queue, metric);
}

/// Takes every rendered metric out of a queue made without default value, oldest first.
pub fn drain_metrics(queue: &mut CircularBuffer<String>) -> (r: Vec<String>)
    requires
        queue_default(*old(queue)) is None,
    ensures
        r@ == queue_items(*old(queue)),
        queue_items(*final(queue)) == Seq::<String>::empty(),
        queue_capacity(*final(queue)) == queue_capacity(*old(queue)),
        queue_default(*final(queue)) is None,
{
    let ghost all = queue_items(*queue);
    let mut batch: Vec<String> = Vec::new();
    while queue_size(queue) > 0
        invariant
            queue_default(*queue) is None,
            queue_capacity(*queue) == queue_capacity(*old(queue)),
            all == queue_items(*old(queue)),
            batch@ + queue_items(*queue) == all,
        decreases queue_items(*queue).len(),
    {
        let ghost before = queue_items(*queue);
        match queue_remove(queue) {
            Some(m) => {
                batch.push(m);
                assert(batch@ + queue_items(*queue) =~= all) by {
                    assert(before == seq![before[0]] + before.drop_first());
                }
            },
            None => {},
        }
    }
    assert(batch@ =~= all);
    batch
}

/// Puts back every metric of a batch whose sending failed, in order.
pub fn requeue_metrics(queue: &mut CircularBuffer<String>, batch: &Vec<String>)
    ensures
        queue_items(*final(queue)) == requeued(
            queue_items(*old(queue)),
            queue_capacity(*old(queue)),
            batch@,
        ),
        queue_capacity(*final(queue)) == queue_capacity(*old(queue)),
        queue_default(*final(queue)) == queue_default(*old(queue)),
{
    let mut i: usize = 0;
    while i < batch.len()
        invariant
            i <= batch@.len(),
            queue_capacity(*queue) == queue_capacity(*old(queue)),
            queue_default(*queue) == queue_default(*old(queue)),
            queue_items(*queue) == requeued(
                queue_items(*old(queue)),
                queue_capacity(*old(queue)),
                batch@.take(i as int),
            ),
        decreases batch@.len() - i,
    {
        assert(batch@.take(i + 1).drop_last() =~= batch@.take(i as int));
        enqueue_metric(queue, batch[i].clone());
        i = i + 1;
    }
    assert(batch@.take(batch@.len() as int) =~= batch@);
}

/// The queue after adding each metric of `batch` in turn.
pub open spec fn requeued(items: Seq<String>, cap: nat, batch: Seq<String>) -> Seq<String>
    decreases batch.len(),
{
    if batch.len() == 0 {
        items
    } else {
        queue_after_add(requeued(items, cap, batch.drop_last()), cap, batch.last())
    }
}

/// The size of the pieces into which a batch of `len` metrics is cut for the
/// batch size `batch_size`: `len / batch_size`, but at least one.
pub open spec fn piece_size(len: nat, batch_size: nat) -> nat {
    if len / batch_size == 0 {
        1
    } else {
        len / batch_size
    }
}

/// A sequence cut into consecutive pieces of `n` elements (the last may be shorter).
pub open spec fn pieces<A>(s: Seq<A>, n: nat) -> Seq<Seq<A>>
    decreases s.len(),
{
    if s.len() == 0 || n == 0 {
        Seq::empty()
    } else if s.len() <= n {
        seq![s]
    } else {
        seq![s.take(n as int)] + pieces(s.skip(n as int), n)
    }
}

/// A JSON array whose elements are the given JSON texts.
pub open spec fn json_array(items: Seq<Seq<char>>) -> Seq<char> {
    "["@ + json_elements(items) + "]"@
}

/// The given JSON texts separated by commas.
pub open spec fn json_elements(items: Seq<Seq<char>>) -> Seq<char>
    decreases items.len(),
{
    if items.len() == 0 {
        Seq::empty()
    } else if items.len() == 1 {
        items[0]
    } else {
        json_elements(items.drop_last()) + ","@ + items.last()
    }
}

/// The JSON array of a piece of rendered metrics.
pub fn frame_payload(chunk: &Vec<String>) -> (r: String)
    ensures
        r@ == json_array(views(chunk@)),
{
    let mut body = String::new();
    let mut i: usize = 0;
    while i < chunk.len()
        invariant
            i <= chunk@.len(),
            body@ == json_elements(views(chunk@).take(i as int)),
        decreases chunk@.len() - i,
    {
        let ghost v = views(chunk@);
        assert(v.take(i + 1).drop_last() =~= v.take(i as int));
        assert(v.take(i + 1).last() == chunk@[i as int]@);
        if i == 0 {
            assert(json_elements(v.take(0)) == Seq::<char>::empty());
            body = chunk[0].clone();
            assert(v.take(1) =~= seq![chunk@[0]@]);
        } else {
            let with_comma = concat(body.as_str(), ",");
            body = concat(with_comma.as_str(), chunk[i].as_str());
        }
        i = i + 1;
    }
    assert(views(chunk@).take(chunk@.len() as int) =~= views(chunk@));
    let open = concat("[", body.as_str());
    concat(open.as_str(), "]")
}

/// Cuts a batch of rendered metrics into the pieces that are sent one by one,
/// each framed as a JSON array.
pub fn batch_payloads(batch: &Vec<String>, batch_size: u16) -> (r: Vec<String>)
    requires
        batch_size > 0,
    ensures
        r@.len() == pieces(batch@, piece_size(batch@.len(), batch_size as nat)).len(),
        forall|i: int|
            0 <= i < r@.len() ==> (#[trigger] r@[i])@ == json_array(
                views(pieces(batch@, piece_size(batch@.len(), batch_size as nat))[i]),
            ),
{
    let len = batch.len();
    let per = len / (batch_size as usize);
    let n: usize = if per == 0 {
        1
    } else {
        per
    };
    let ghost all = pieces(batch@, n as nat);
    let mut r: Vec<String> = Vec::new();
    let mut start: usize = 0;
    assert(batch@.skip(0) =~= batch@);
    while start < len
        invariant
            len == batch@.len(),
            n >= 1,
            n == piece_size(batch@.len(), batch_size as nat),
            start <= len,
            all == pieces(batch@, n as nat),
            r@.len() + pieces(batch@.skip(start as int), n as nat).len() == all.len(),
            forall|i: int| 0 <= i < r@.len() ==> (#[trigger] r@[i])@ == json_array(views(all[i])),
            forall|i: int|
                0 <= i < pieces(batch@.skip(start as int), n as nat).len() ==> #[trigger] pieces(
                    batch@.skip(start as int),
                    n as nat,
                )[i] == all[r@.len() + i],
        decreases len - start,
    {
        let end = if len - start <= n {
            len
        } else {
            start + n
        };
        let mut chunk: Vec<String> = Vec::new();
        let mut k: usize = start;
        while k < end
            invariant
                start <= k <= end <= len,
                len == batch@.len(),
                chunk@ == batch@.subrange(start as int, k as int),
            decreases end - k,
        {
            chunk.push(batch[k].clone());
            assert(chunk@ =~= batch@.subrange(start as int, k + 1));
            k = k + 1;
        }
        let ghost rest = batch@.skip(start as int);
        let ghost rest_pieces = pieces(rest, n as nat);
        assert(rest_pieces.len() > 0 && rest_pieces[0] == chunk@) by {
            if rest.len() <= n {
                assert(chunk@ =~= rest);
            } else {
                assert(chunk@ =~= rest.take(n as int));
                assert(rest_pieces == seq![rest.take(n as int)] + pieces(rest.skip(n as int), n as nat));
            }
        }
        assert(pieces(batch@.skip(end as int), n as nat) =~= rest_pieces.drop_first()) by {
            if rest.len() <= n {
                assert(batch@.skip(end as int).len() == 0);
            } else {
                assert(rest.skip(n as int) =~= batch@.skip(end as int));
                assert(rest_pieces == seq![rest.take(n as int)] + pieces(rest.skip(n as int), n as nat));
            }
        }
        let payload = frame_payload(&chunk);
        r.push(payload);
        start = end;
    }
    assert(pieces(batch@.skip(len as int), n as nat).len() == 0);
    r
}

/// The device that metrics are reported from.
pub struct DeviceMetricsContext {
    pub device_language: String,
    pub device_model: String,
    pub device_id: String,
    pub account_id: String,
    pub device_timezone: String,
    pub device_name: String,
    pub platform: String,
    pub os_ver: String,
    pub device_session_id: String,
    pub mac_address: String,
    pub serial_number: String,
    pub distribution_tenant_id: String,
}

/// The data tags that exclude capabilities from a metric.
pub struct EntOsCetTags {
    pub durable_app_id: String,
    pub capabilities_exclusion_tags: Vec<String>,
}

/// The platform-specific part of a metric.
pub struct EntOsCustomMetric {
    pub device_mac: String,
    pub device_serial: String,
    pub source_app: String,
    pub source_app_version: String,
    pub authenticated: bool,
    pub access_schema: Option<String>,
    pub access_payload: Option<EntOsCetTags>,
}

/// A metric in the common schema that the collector takes.
pub struct CCS {
    pub app_name: String,
    pub app_ver: String,
    pub device_language: String,
    pub device_model: String,
    pub partner_id: String,
    pub device_id: String,
    pub account_id: String,
    pub device_timezone: i32,
    pub device_name: String,
    pub platform: String,
    pub os_ver: String,
    pub session_id: String,
    pub event_id: String,
    pub event_type: String,
    pub event_name: String,
    pub timestamp: u64,
    pub event_schema: String,
    pub event_payload: AXPMetric,
    pub custom_schema: String,
    pub custom_payload: EntOsCustomMetric,
}

/// The access schema of a metric: "access/tags/0" when its application is governed.
pub open spec fn access_schema(ctx: AppContext) -> Option<Seq<char>> {
    match ctx.governance_state {
        Some(_) => Some("access/tags/0"@),
        None => None,
    }
}

/// The access schema of a metric from the application of `app_context`.
pub fn get_access_schema(app_context: &AppContext) -> (r: Option<String>)
    ensures
        crate::config::opt_view(r) == access_schema(*app_context),
{
    match &app_context.governance_state {
        Some(_) => Some("access/tags/0".to_owned()),
        None => None,
    }
}

/// Whether the custom part of a metric is right for an application context:
/// the device fields, the application and version given, and the access tags
/// when the application's governance applies any.
pub open spec fn custom_payload_of(
    c: EntOsCustomMetric,
    device: DeviceMetricsContext,
    ctx: AppContext,
    source_app: Seq<char>,
    source_app_version: Seq<char>,
) -> bool {
    &&& c.device_mac@ == device.mac_address@
    &&& c.device_serial@ == device.serial_number@
    &&& c.source_app@ == source_app
    &&& c.source_app_version@ == source_app_version
    &&& c.authenticated
    &&& match ctx.governance_state {
        Some(g) => if g.data_tags_to_apply@.len() > 0 {
            &&& crate::config::opt_view(c.access_schema) == Some("access/tags/0"@)
            &&& c.access_payload matches Some(t) && t.durable_app_id@ == ctx.durable_app_id@
                && views(t.capabilities_exclusion_tags@) == views(g.data_tags_to_apply@)
        } else {
            c.access_schema is None && c.access_payload is None
        },
        None => c.access_schema is None && c.access_payload is None,
    }
}

fn custom_payload(
    device: &DeviceMetricsContext,
    ctx: &AppContext,
    source_app: &String,
    source_app_version: &String,
) -> (r: EntOsCustomMetric)
    ensures
        custom_payload_of(r, *device, *ctx, source_app@, source_app_version@),
{
    let (access_schema, access_payload) = match &ctx.governance_state {
        Some(g) => {
            if g.data_tags_to_apply.len() > 0 {
                (
                    get_access_schema(ctx),
                    Some(
                        EntOsCetTags {
                            durable_app_id: ctx.durable_app_id.clone(),
                            capabilities_exclusion_tags: copy_strings(&g.data_tags_to_apply),
                        },
                    ),
                )
            } else {
                (None, None)
            }
        },
        None => (None, None),
    };
    EntOsCustomMetric {
        device_mac: device.mac_address.clone(),
        device_serial: device.serial_number.clone(),
        source_app: source_app.clone(),
        source_app_version: source_app_version.clone(),
        authenticated: true,
        access_schema,
        access_payload,
    }
}

/// Whether `r` is the common-schema form of the collector metric `payload` sent
/// from `device` for `partner_id` in version `app_ver` of the "entos" application,
/// with the given identifier, time and time zone offset.
pub open spec fn ccs_of(
    r: CCS,
    device: DeviceMetricsContext,
    schemas: MetricsSchemas,
    app_ver: Seq<char>,
    partner_id: Seq<char>,
    event_id: String,
    timestamp: u64,
    timezone: i32,
) -> bool {
    &&& r.app_name@ == "entos"@
    &&& r.app_ver@ == app_ver
    &&& r.device_language@ == device.device_language@
    &&& r.device_model@ == device.device_model@
    &&& r.partner_id@ == partner_id
    &&& r.device_id@ == device.device_id@
    &&& r.account_id@ == device.account_id@
    &&& r.device_timezone == timezone
    &&& r.device_name@ == device.device_name@
    &&& r.platform@ == device.platform@
    &&& r.os_ver@ == device.os_ver@
    &&& r.session_id@ == device.device_session_id@
    &&& r.event_id == event_id
    &&& r.event_type@ == (if spec_is_badger(r.event_payload) {
        "firebadger"@
    } else {
        "firebolt"@
    })
    &&& r.event_name@ == event_name_alias(schemas, base_event_name(r.event_payload))
    &&& r.timestamp == timestamp
    &&& r.event_schema@ == event_path(
        schemas,
        event_name_alias(schemas, base_event_name(r.event_payload)),
    )
    &&& r.custom_schema@ == event_path(schemas, "custom"@)
}

/// The service that renders behavioral metrics for the collector.
pub struct SiftService {
    pub sift_endpoint: String,
    pub batch_size: u8,
    pub metrics_schemas: MetricsSchemas,
    pub metrics_context: Option<DeviceMetricsContext>,
}

impl SiftService {
    /// A service sending to `sift_endpoint` in batches of `batch_size`.
    pub fn new(
        sift_endpoint: String,
        batch_size: u8,
        metrics_schemas: MetricsSchemas,
        metrics_context: Option<DeviceMetricsContext>,
    ) -> (r: SiftService)
        ensures
            r.sift_endpoint == sift_endpoint,
            r.batch_size == batch_size,
            r.metrics_schemas == metrics_schemas,
            r.metrics_context == metrics_context,
    {
        SiftService { sift_endpoint, batch_size, metrics_schemas, metrics_context }
    }

    /// Sets the device context that metrics are rendered with.
    pub fn set_metrics_context(&mut self, metrics_context: Option<DeviceMetricsContext>)
        ensures
            final(self).metrics_context == metrics_context,
            final(self).sift_endpoint == old(self).sift_endpoint,
            final(self).batch_size == old(self).batch_size,
            final(self).metrics_schemas == old(self).metrics_schemas,
    {
        self.metrics_context = metrics_context;
    }

    fn ccs(
        &self,
        device: &DeviceMetricsContext,
        app_ver: String,
        partner_id: String,
        event_payload: AXPMetric,
        custom_payload: EntOsCustomMetric,
        event_id: String,
        timestamp: u64,
        timezone: i32,
    ) -> (r: CCS)
        ensures
            ccs_of(
                r,
                *device,
                self.metrics_schemas,
                app_ver@,
                partner_id@,
                event_id,
                timestamp,
                timezone,
            ),
            r.event_payload == event_payload,
            r.custom_payload == custom_payload,
    {
        let event_type = event_payload.event_type();
        let event_name = event_payload.event_name(&self.metrics_schemas);
        let event_schema = event_payload.event_schema(&self.metrics_schemas);
        let custom_schema = self.metrics_schemas.get_event_path("custom");
        CCS {
            app_name: "entos".to_owned(),
            app_ver,
            device_language: device.device_language.clone(),
            device_model: device.device_model.clone(),
            partner_id,
            device_id: device.device_id.clone(),
            account_id: device.account_id.clone(),
            device_timezone: timezone,
            device_name: device.device_name.clone(),
            platform: device.platform.clone(),
            os_ver: device.os_ver.clone(),
            session_id: device.device_session_id.clone(),
            event_id,
            event_type,
            event_name,
            timestamp,
            event_schema,
            event_payload,
            custom_schema,
            custom_payload,
        }
    }

    /// Renders a Firebolt metric for the collector; nothing without a device context.
    pub fn render_behavioral(
        &self,
        firebolt_metric: AppBehavioralMetric,
        event_id: String,
        timestamp: u64,
        timezone: i32,
    ) -> (r: Option<CCS>)
        requires
            fits_collector(firebolt_metric),
        ensures
            self.metrics_context is None ==> r is None,
            self.metrics_context matches Some(device) ==> r matches Some(c) && {
                let ctx = app_context_of(firebolt_metric);
                &&& ccs_of(
                    c,
                    device,
                    self.metrics_schemas,
                    ctx.app_version@,
                    ctx.partner_id@,
                    event_id,
                    timestamp,
                    timezone,
                )
                &&& is_pabs_of(firebolt_metric, c.event_payload)
                &&& custom_payload_of(
                    c.custom_payload,
                    device,
                    ctx,
                    ctx.app_id@,
                    ctx.app_version@,
                )
            },
    {
        match &self.metrics_context {
            None => None,
            Some(device) => {
                let ctx = extract_context(&firebolt_metric);
                let partner_id = ctx.partner_id.clone();
                let app_ver = ctx.app_version.clone();
                let custom = custom_payload(device, ctx, &ctx.app_id, &ctx.app_version);
                let payload = fb_2_pabs(firebolt_metric);
                Some(
                    self.ccs(device, app_ver, partner_id, payload, custom, event_id, timestamp, timezone),
                )
            },
        }
    }

    /// Renders a Badger metric for the collector; nothing without a device context.
    /// Its version fields carry the application's identifier.
    pub fn render_badger(
        &self,
        badger_metric: BadgerMetrics,
        event_id: String,
        timestamp: u64,
        timezone: i32,
    ) -> (r: Option<CCS>)
        ensures
            self.metrics_context is None ==> r is None,
            self.metrics_context matches Some(device) ==> r matches Some(c) && {
                let ctx = badger_context_of(badger_metric);
                &&& ccs_of(
                    c,
                    device,
                    self.metrics_schemas,
                    ctx.app_id@,
                    ctx.partner_id@,
                    event_id,
                    timestamp,
                    timezone,
                )
                &&& c.event_payload == badger_pabs(badger_metric)
                &&& custom_payload_of(c.custom_payload, device, ctx, ctx.app_id@, ctx.app_id@)
            },
    {
        match &self.metrics_context {
            None => None,
            Some(device) => {
                let ctx = badger_extract_context(&badger_metric);
                let partner_id = ctx.partner_id.clone();
                let app_ver = ctx.app_id.clone();
                let custom = custom_payload(device, ctx, &ctx.app_id, &ctx.app_id);
                let payload = badger_2_pabs(badger_metric);
                Some(
                    self.ccs(device, app_ver, partner_id, payload, custom, event_id, timestamp, timezone),
                )
            },
        }
    }
}

/// The application context of a Firebolt metric.
pub open spec fn app_context_of(m: AppBehavioralMetric) -> AppContext {
    match m {
        AppBehavioralMetric::Ready(a) => a.context,
        AppBehavioralMetric::SignIn(a) => a.context,
        AppBehavioralMetric::SignOut(a) => a.context,
        AppBehavioralMetric::StartContent(a) => a.context,
        AppBehavioralMetric::StopContent(a) => a.context,
        AppBehavioralMetric::Page(a) => a.context,
        AppBehavioralMetric::Action(a) => a.context,
        AppBehavioralMetric::Error(a) => a.context,
        AppBehavioralMetric::MediaLoadStart(a) => a.context,
        AppBehavioralMetric::MediaPlay(a) => a.context,
        AppBehavioralMetric::MediaPlaying(a) => a.context,
        AppBehavioralMetric::MediaPause(a) => a.context,
        AppBehavioralMetric::MediaWaiting(a) => a.context,
        AppBehavioralMetric::MediaProgress(a) => a.context,
        AppBehavioralMetric::MediaSeeking(a) => a.context,
        AppBehavioralMetric::MediaSeeked(a) => a.context,
        AppBehavioralMetric::MediaRateChanged(a) => a.context,
        AppBehavioralMetric::MediaRenditionChanged(a) => a.context,
        AppBehavioralMetric::MediaEnded(a) => a.context,
        AppBehavioralMetric::AppStateChange(a) => a.context,
    }
}

/// The application context of a Badger metric.
pub open spec fn badger_context_of(m: BadgerMetrics) -> AppContext {
    match m {
        BadgerMetrics::Metric(a) => a.context,
        BadgerMetrics::AppAction(a) => a.context,
        BadgerMetrics::Error(a) => a.context,
        BadgerMetrics::LaunchCompleted(a) => a.context,
        BadgerMetrics::DismissLoadingScreen(a) => a.context,
        BadgerMetrics::PageView(a) => a.context,
        BadgerMetrics::UserAction(a) => a.context,
        BadgerMetrics::UserError(a) => a.context,
    }
}

/// The application context of a Firebolt metric.
pub fn extract_context(metric: &AppBehavioralMetric) -> (r: &AppContext)
    ensures
        *r == app_context_of(*metric),
{
    match metric {
        AppBehavioralMetric::Ready(a) => &a.context,
        AppBehavioralMetric::SignIn(a) => &a.context,
        AppBehavioralMetric::SignOut(a) => &a.context,
        AppBehavioralMetric::StartContent(a) => &a.context,
        AppBehavioralMetric::StopContent(a) => &a.context,
        AppBehavioralMetric::Page(a) => &a.context,
        AppBehavioralMetric::Action(a) => &a.context,
        AppBehavioralMetric::Error(a) => &a.context,
        AppBehavioralMetric::MediaLoadStart(a) => &a.context,
        AppBehavioralMetric::MediaPlay(a) => &a.context,
        AppBehavioralMetric::MediaPlaying(a) => &a.context,
        AppBehavioralMetric::MediaPause(a) => &a.context,
        AppBehavioralMetric::MediaWaiting(a) => &a.context,
        AppBehavioralMetric::MediaProgress(a) => &a.context,
        AppBehavioralMetric::MediaSeeking(a) => &a.context,
        AppBehavioralMetric::MediaSeeked(a) => &a.context,
        AppBehavioralMetric::MediaRateChanged(a) => &a.context,
        AppBehavioralMetric::MediaRenditionChanged(a) => &a.context,
        AppBehavioralMetric::MediaEnded(a) => &a.context,
        AppBehavioralMetric::AppStateChange(a) => &a.context,
    }
}

/// The application context of a Badger metric.
pub fn badger_extract_context(metric: &BadgerMetrics) -> (r: &AppContext)
    ensures
        *r == badger_context_of(*metric),
{
    match metric {
        BadgerMetrics::Metric(a) => &a.context,
        BadgerMetrics::AppAction(a) => &a.context,
        BadgerMetrics::Error(a) => &a.context,
        BadgerMetrics::LaunchCompleted(a) => &a.context,
        BadgerMetrics::DismissLoadingScreen(a) => &a.context,
        BadgerMetrics::PageView(a) => &a.context,
        BadgerMetrics::UserAction(a) => &a.context,
        BadgerMetrics::UserError(a) => &a.context,
    }
}

/// A queue never holds more metrics than its capacity: adding to a queue
/// within its capacity leaves it within its capacity.
pub proof fn law_queue_bounded(items: Seq<String>, cap: nat, val: String)
    requires
        cap > 0,
        items.len() <= cap,
    ensures
        queue_after_add(items, cap, val).len() <= cap,
{
}

/// A batch taken out of a queue and put back, whole, into an empty queue large
/// enough for it, comes back in the same order.
pub proof fn law_requeue_round_trip(batch: Seq<String>, cap: nat)
    requires
        batch.len() <= cap,
    ensures
        requeued(Seq::empty(), cap, batch) == batch,
    decreases batch.len(),
{
    if batch.len() > 0 {
        law_requeue_round_trip(batch.drop_last(), cap);
        assert(batch.drop_last().push(batch.last()) =~= batch);
    }
}

/// The concatenation of a list of pieces.
pub open spec fn joined<A>(p: Seq<Seq<A>>) -> Seq<A>
    decreases p.len(),
{
    if p.len() == 0 {
        Seq::empty()
    } else {
        p[0] + joined(p.drop_first())
    }
}

/// Cutting a batch into pieces loses no metric and repeats none: the pieces,
/// in order, make up the batch.
pub proof fn law_pieces_cover<A>(s: Seq<A>, n: nat)
    requires
        n > 0,
    ensures
        joined(pieces(s, n)) == s,
    decreases s.len(),
{
    if s.len() == 0 {
        assert(pieces(s, n) =~= Seq::<Seq<A>>::empty());
        assert(s =~= Seq::<A>::empty());
    } else if s.len() <= n {
        let p = pieces(s, n);
        assert(p == seq![s]);
        assert(p[0] == s);
        assert(p.drop_first() =~= Seq::<Seq<A>>::empty());
        assert(joined(p) == p[0] + joined(p.drop_first()));
        assert(s + Seq::<A>::empty() =~= s);
    } else {
        law_pieces_cover(s.skip(n as int), n);
        let p = pieces(s, n);
        assert(p == seq![s.take(n as int)] + pieces(s.skip(n as int), n));
        assert(p[0] == s.take(n as int));
        assert(p.drop_first() =~= pieces(s.skip(n as int), n));
        assert(joined(p) == p[0] + joined(p.drop_first()));
        assert(s.take(n as int) + s.skip(n as int) =~= s);
    }
}

} // verus!
