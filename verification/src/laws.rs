//! What holds of every configuration.

use crate::backend::{fresh, identified};
use crate::options::{ClientOptionsView, Field, Update};
use crate::retry::RetryConfigView;
use crate::transport::{
    first_rejected, in_order, protocol_after, step_if, taken_all, Protocol, TransportStep,
};
use reqwest::ClientBuilder;
use vstd::prelude::*;

verus! {

proof fn lemma_first_rejected_concat(a: Seq<TransportStep>, b: Seq<TransportStep>)
    ensures
        first_rejected(a + b) == if first_rejected(a) is Some {
            first_rejected(a)
        } else {
            first_rejected(b)
        },
    decreases b.len(),
{
    if b.len() == 0 {
        assert(a + b =~= a);
    } else {
        assert((a + b).last() == b.last());
        assert((a + b).drop_last() =~= a + b.drop_last());
        lemma_first_rejected_concat(a, b.drop_last());
    }
}

proof fn lemma_first_rejected_one(step: TransportStep)
    ensures
        first_rejected(seq![step]) == if step.accepted() {
            None
        } else {
            Some(step)
        },
{
    let steps = seq![step];
    assert(steps.last() == step);
    assert(first_rejected(steps.drop_last()) is None);
}

/// A step that can be taken, present or not, is not the first rejected one.
proof fn lemma_first_rejected_skips(a: Seq<TransportStep>, present: bool, step: TransportStep)
    requires
        step.accepted(),
    ensures
        first_rejected(a + step_if(present, step)) == first_rejected(a),
{
    lemma_first_rejected_concat(a, step_if(present, step));
    if present {
        lemma_first_rejected_one(step);
    }
}

/// The step after a run of steps that can all be taken is the first rejected
/// one if it cannot be taken.
pub proof fn lemma_first_rejected_found(steps: Seq<TransportStep>, i: int)
    requires
        0 <= i < steps.len(),
        first_rejected(steps.take(i)) is None,
        !steps[i].accepted(),
    ensures
        first_rejected(steps) == Some(steps[i]),
{
    let through = steps.take(i + 1);
    assert(through.last() == steps[i]);
    assert(through.drop_last() =~= steps.take(i));
    assert(through + steps.skip(i + 1) =~= steps);
    lemma_first_rejected_concat(through, steps.skip(i + 1));
}

/// Of the parts of the plan, only the default headers and the proxy can hold
/// a step that cannot be taken.
proof fn lemma_first_rejected_of_parts(options: ClientOptionsView)
    ensures
        first_rejected(options.identification_steps()) is None,
        first_rejected(options.header_steps()) == if options.headers_fit() {
            None
        } else {
            Some(TransportStep::DefaultHeaders(options.default_headers.unwrap()))
        },
        first_rejected(options.proxy_steps()) == if options.proxy_accepted() {
            None
        } else {
            Some(TransportStep::Proxy(options.proxy_url.unwrap()))
        },
        first_rejected(options.timeout_steps()) is None,
        first_rejected(options.keep_alive_steps()) is None,
        first_rejected(options.protocol_steps()) is None,
        first_rejected(options.tls_steps()) is None,
{
    let empty = Seq::<TransportStep>::empty();
    assert(first_rejected(options.identification_steps()) is None) by {
        lemma_first_rejected_one(options.identification_steps()[0]);
        assert(options.identification_steps() =~= seq![options.identification_steps()[0]]);
    }
    assert(first_rejected(options.header_steps()) == if options.headers_fit() {
        None
    } else {
        Some(TransportStep::DefaultHeaders(options.default_headers.unwrap()))
    }) by {
        if options.default_headers is Some {
            lemma_first_rejected_one(
                TransportStep::DefaultHeaders(options.default_headers.unwrap()),
            );
        }
    }
    assert(first_rejected(options.proxy_steps()) == if options.proxy_accepted() {
        None
    } else {
        Some(TransportStep::Proxy(options.proxy_url.unwrap()))
    }) by {
        if options.proxy_url is Some {
            lemma_first_rejected_one(TransportStep::Proxy(options.proxy_url.unwrap()));
        }
    }
    assert(first_rejected(options.timeout_steps()) is None) by {
        let timeout = step_if(
            options.timeout is Some,
            TransportStep::Timeout(options.timeout.unwrap()),
        );
        let connect = step_if(
            options.connect_timeout is Some,
            TransportStep::ConnectTimeout(options.connect_timeout.unwrap()),
        );
        let idle = step_if(
            options.pool_idle_timeout is Some,
            TransportStep::PoolIdleTimeout(options.pool_idle_timeout.unwrap()),
        );
        assert(empty + timeout =~= timeout);
        lemma_first_rejected_skips(
            empty,
            options.timeout is Some,
            TransportStep::Timeout(options.timeout.unwrap()),
        );
        lemma_first_rejected_skips(
            timeout,
            options.connect_timeout is Some,
            TransportStep::ConnectTimeout(options.connect_timeout.unwrap()),
        );
        lemma_first_rejected_skips(
            timeout + connect,
            options.pool_idle_timeout is Some,
            TransportStep::PoolIdleTimeout(options.pool_idle_timeout.unwrap()),
        );
        lemma_first_rejected_skips(
            timeout + connect + idle,
            options.pool_max_idle_per_host is Some,
            TransportStep::PoolMaxIdlePerHost(options.pool_max_idle_per_host.unwrap()),
        );
    }
    assert(first_rejected(options.keep_alive_steps()) is None) by {
        let interval = step_if(
            options.http2_keep_alive_interval is Some,
            TransportStep::Http2KeepAliveInterval(options.http2_keep_alive_interval.unwrap()),
        );
        let timeout = step_if(
            options.http2_keep_alive_timeout is Some,
            TransportStep::Http2KeepAliveTimeout(options.http2_keep_alive_timeout.unwrap()),
        );
        assert(empty + interval =~= interval);
        lemma_first_rejected_skips(
            empty,
            options.http2_keep_alive_interval is Some,
            TransportStep::Http2KeepAliveInterval(options.http2_keep_alive_interval.unwrap()),
        );
        lemma_first_rejected_skips(
            interval,
            options.http2_keep_alive_timeout is Some,
            TransportStep::Http2KeepAliveTimeout(options.http2_keep_alive_timeout.unwrap()),
        );
        lemma_first_rejected_skips(
            interval + timeout,
            options.http2_keep_alive_while_idle,
            TransportStep::Http2KeepAliveWhileIdle,
        );
    }
    assert(first_rejected(options.protocol_steps()) is None) by {
        let http1 = step_if(options.http1_only, TransportStep::Http1Only);
        assert(empty + http1 =~= http1);
        lemma_first_rejected_skips(empty, options.http1_only, TransportStep::Http1Only);
        lemma_first_rejected_skips(http1, options.http2_only, TransportStep::Http2PriorKnowledge);
    }
    assert(first_rejected(options.tls_steps()) is None) by {
        let accept = step_if(options.allow_insecure, TransportStep::AcceptInvalidCerts);
        let https_only = TransportStep::HttpsOnly(!options.allow_http);
        assert(empty + accept =~= accept);
        lemma_first_rejected_skips(empty, options.allow_insecure, TransportStep::AcceptInvalidCerts);
        assert(seq![https_only] =~= step_if(true, https_only));
        lemma_first_rejected_skips(accept, true, https_only);
    }
}

/// Only two settings can fail a configuration, and the headers are looked at
/// before the proxy: the first step of the plan that cannot be taken is the
/// default headers if they hold too many names, else the proxy if its URL
/// does not parse, and else there is none.
pub proof fn lemma_first_rejected_of_plan(options: ClientOptionsView)
    ensures
        first_rejected(options.transport_plan()) == if !options.headers_fit() {
            Some(TransportStep::DefaultHeaders(options.default_headers.unwrap()))
        } else if !options.proxy_accepted() {
            Some(TransportStep::Proxy(options.proxy_url.unwrap()))
        } else {
            None
        },
{
    let through_headers = options.identification_steps() + options.header_steps();
    let through_proxy = through_headers + options.proxy_steps();
    let through_timeouts = through_proxy + options.timeout_steps();
    let through_keep_alive = through_timeouts + options.keep_alive_steps();
    let through_protocol = through_keep_alive + options.protocol_steps();
    lemma_first_rejected_of_parts(options);
    lemma_first_rejected_concat(options.identification_steps(), options.header_steps());
    lemma_first_rejected_concat(through_headers, options.proxy_steps());
    lemma_first_rejected_concat(through_proxy, options.timeout_steps());
    lemma_first_rejected_concat(through_timeouts, options.keep_alive_steps());
    lemma_first_rejected_concat(through_keep_alive, options.protocol_steps());
    lemma_first_rejected_concat(through_protocol, options.tls_steps());
}

/// The steps are in order, and their places lie between `lo` and `hi`.
spec fn within(steps: Seq<TransportStep>, lo: nat, hi: nat) -> bool {
    &&& in_order(steps)
    &&& forall|i: int| 0 <= i < steps.len() ==> lo <= (#[trigger] steps[i]).rank() <= hi
}

proof fn lemma_within_concat(
    a: Seq<TransportStep>,
    b: Seq<TransportStep>,
    lo: nat,
    mid: nat,
    hi: nat,
)
    requires
        lo <= mid < hi,
        within(a, lo, mid),
        within(b, mid + 1, hi),
    ensures
        within(a + b, lo, hi),
{
    let joined = a + b;
    assert forall|i: int| 0 <= i < joined.len() implies lo <= (#[trigger] joined[i]).rank()
        <= hi by {
        if i < a.len() {
            assert(joined[i] == a[i]);
        } else {
            assert(joined[i] == b[i - a.len()]);
        }
    }
    assert forall|i: int, j: int| 0 <= i < j < joined.len() implies (#[trigger] joined[i]).rank() < (
    #[trigger] joined[j]).rank() by {
        if j < a.len() {
            assert(joined[i] == a[i] && joined[j] == a[j]);
        } else if i >= a.len() {
            assert(joined[i] == b[i - a.len()] && joined[j] == b[j - a.len()]);
        } else {
            assert(joined[i] == a[i] && joined[j] == b[j - a.len()]);
        }
    }
}

proof fn lemma_timeout_steps_in_order(options: ClientOptionsView)
    ensures
        within(options.timeout_steps(), 3, 6),
{
    let timeout = step_if(options.timeout is Some, TransportStep::Timeout(options.timeout.unwrap()));
    let connect = step_if(
        options.connect_timeout is Some,
        TransportStep::ConnectTimeout(options.connect_timeout.unwrap()),
    );
    let idle = step_if(
        options.pool_idle_timeout is Some,
        TransportStep::PoolIdleTimeout(options.pool_idle_timeout.unwrap()),
    );
    let max_idle = step_if(
        options.pool_max_idle_per_host is Some,
        TransportStep::PoolMaxIdlePerHost(options.pool_max_idle_per_host.unwrap()),
    );
    lemma_within_concat(timeout, connect, 3, 3, 4);
    lemma_within_concat(timeout + connect, idle, 3, 4, 5);
    lemma_within_concat(timeout + connect + idle, max_idle, 3, 5, 6);
}

proof fn lemma_keep_alive_steps_in_order(options: ClientOptionsView)
    ensures
        within(options.keep_alive_steps(), 7, 9),
{
    let interval = step_if(
        options.http2_keep_alive_interval is Some,
        TransportStep::Http2KeepAliveInterval(options.http2_keep_alive_interval.unwrap()),
    );
    let timeout = step_if(
        options.http2_keep_alive_timeout is Some,
        TransportStep::Http2KeepAliveTimeout(options.http2_keep_alive_timeout.unwrap()),
    );
    let while_idle = step_if(
        options.http2_keep_alive_while_idle,
        TransportStep::Http2KeepAliveWhileIdle,
    );
    lemma_within_concat(interval, timeout, 7, 7, 8);
    lemma_within_concat(interval + timeout, while_idle, 7, 8, 9);
}

proof fn lemma_protocol_steps_in_order(options: ClientOptionsView)
    ensures
        within(options.protocol_steps(), 10, 11),
{
    lemma_within_concat(
        step_if(options.http1_only, TransportStep::Http1Only),
        step_if(options.http2_only, TransportStep::Http2PriorKnowledge),
        10,
        10,
        11,
    );
}

proof fn lemma_tls_steps_in_order(options: ClientOptionsView)
    ensures
        within(options.tls_steps(), 12, 13),
{
    lemma_within_concat(
        step_if(options.allow_insecure, TransportStep::AcceptInvalidCerts),
        seq![TransportStep::HttpsOnly(!options.allow_http)],
        12,
        12,
        13,
    );
}

/// The plan applies its steps in one fixed order, and each kind of step at
/// most once: nothing that was set twice is applied twice.
pub proof fn lemma_plan_in_order(options: ClientOptionsView)
    ensures
        in_order(options.transport_plan()),
{
    let through_headers = options.identification_steps() + options.header_steps();
    let through_proxy = through_headers + options.proxy_steps();
    let through_timeouts = through_proxy + options.timeout_steps();
    let through_keep_alive = through_timeouts + options.keep_alive_steps();
    let through_protocol = through_keep_alive + options.protocol_steps();
    lemma_timeout_steps_in_order(options);
    lemma_keep_alive_steps_in_order(options);
    lemma_protocol_steps_in_order(options);
    lemma_tls_steps_in_order(options);
    lemma_within_concat(options.identification_steps(), options.header_steps(), 0, 0, 1);
    lemma_within_concat(through_headers, options.proxy_steps(), 0, 1, 2);
    lemma_within_concat(through_proxy, options.timeout_steps(), 0, 2, 6);
    lemma_within_concat(through_timeouts, options.keep_alive_steps(), 0, 6, 9);
    lemma_within_concat(through_keep_alive, options.protocol_steps(), 0, 9, 11);
    lemma_within_concat(through_protocol, options.tls_steps(), 0, 11, 13);
}

/// In a plan the default headers come second, straight after the
/// identification: the builder that takes them is a fresh one that has taken
/// a user agent and nothing else.
pub proof fn lemma_headers_follow_identification(
    start: ClientBuilder,
    steps: Seq<TransportStep>,
    i: int,
)
    requires
        fresh(start),
        0 <= i < steps.len(),
        steps[0].rank() == 0,
        in_order(steps),
        steps[i] is DefaultHeaders,
    ensures
        i == 1,
        identified(taken_all(start, steps.take(i))),
{
    if i > 1 {
        assert(steps[0].rank() < steps[1].rank() < steps[i].rank());
    }
    let first = steps.take(1);
    assert(first.last() == steps[0]);
    assert(first.drop_last() =~= Seq::<TransportStep>::empty());
    assert(taken_all(start, first.drop_last()) == start);
    assert(taken_all(start, first) == steps[0].taken(start));
}

/// Of every sequence of setter calls, the last call that writes an option
/// decides its value: the option ends up as that call alone would leave it,
/// whatever was set before.
pub proof fn lemma_last_update_wins(start: ClientOptionsView, updates: Seq<Update>, last: int)
    requires
        0 <= last < updates.len(),
        forall|later: int|
            last < later < updates.len() ==> (#[trigger] updates[later]).field()
                != updates[last].field(),
    ensures
        start.apply_all(updates).agrees_on(start.apply(updates[last]), updates[last].field()),
    decreases updates.len(),
{
    if last < updates.len() - 1 {
        let earlier = updates.drop_last();
        assert(earlier[last] == updates[last]);
        assert forall|later: int| last < later < earlier.len() implies (#[trigger] earlier[later]).field()
            != earlier[last].field() by {
            assert(earlier[later] == updates[later]);
        }
        lemma_last_update_wins(start, earlier, last);
        assert(updates.last() == updates[updates.len() - 1]);
    }
}

/// An option that no call in a sequence of setter calls writes keeps its
/// value.
pub proof fn lemma_unwritten_option_kept(
    start: ClientOptionsView,
    updates: Seq<Update>,
    field: Field,
)
    requires
        forall|i: int| 0 <= i < updates.len() ==> (#[trigger] updates[i]).field() != field,
    ensures
        start.apply_all(updates).agrees_on(start, field),
    decreases updates.len(),
{
    if updates.len() > 0 {
        let earlier = updates.drop_last();
        assert forall|i: int| 0 <= i < earlier.len() implies (#[trigger] earlier[i]).field()
            != field by {
            assert(earlier[i] == updates[i]);
        }
        lemma_unwritten_option_kept(start, earlier, field);
        assert(updates.last() == updates[updates.len() - 1]);
    }
}

/// A retry configuration that was set is the policy of the client, with
/// exactly the retries that it asks for; with none set, the policy is the
/// default one.
pub proof fn lemma_retry_policy(options: ClientOptionsView, cfg: RetryConfigView)
    ensures
        options.apply(Update::RetryConfig(cfg)).retry_policy() == cfg,
        options.retry_config is None ==> options.retry_policy()
            == RetryConfigView::default_policy(),
{
}

proof fn lemma_last_step_replaced(
    a: Seq<TransportStep>,
    b: Seq<TransportStep>,
    old_last: TransportStep,
    new_last: TransportStep,
)
    ensures
        (a + (b + seq![old_last])).last() == old_last,
        (a + (b + seq![old_last])).drop_last().push(new_last) == a + (b + seq![new_last]),
{
    assert((a + (b + seq![old_last])).drop_last().push(new_last) =~= a + (b + seq![new_last]));
}

/// Allowing or refusing plain HTTP changes the last step of the plan and
/// nothing else: it has no part in whether the settings are well formed.
pub proof fn lemma_allow_http_sets_last_step(options: ClientOptionsView, allow: bool)
    ensures
        options.transport_plan().last() == TransportStep::HttpsOnly(!options.allow_http),
        options.apply(Update::AllowHttp(allow)).transport_plan()
            == options.transport_plan().drop_last().push(TransportStep::HttpsOnly(!allow)),
        first_rejected(options.apply(Update::AllowHttp(allow)).transport_plan())
            == first_rejected(options.transport_plan()),
{
    let changed = options.apply(Update::AllowHttp(allow));
    let before = options.identification_steps() + options.header_steps() + options.proxy_steps()
        + options.timeout_steps() + options.keep_alive_steps() + options.protocol_steps();
    let accept = step_if(options.allow_insecure, TransportStep::AcceptInvalidCerts);
    assert(changed.identification_steps() == options.identification_steps());
    assert(changed.header_steps() == options.header_steps());
    assert(changed.proxy_steps() == options.proxy_steps());
    assert(changed.timeout_steps() == options.timeout_steps());
    assert(changed.keep_alive_steps() == options.keep_alive_steps());
    assert(changed.protocol_steps() == options.protocol_steps());
    assert(options.transport_plan() == before + (accept + seq![
        TransportStep::HttpsOnly(!options.allow_http),
    ]));
    assert(changed.transport_plan() == before + (accept + seq![
        TransportStep::HttpsOnly(!allow),
    ]));
    lemma_last_step_replaced(
        before,
        accept,
        TransportStep::HttpsOnly(!options.allow_http),
        TransportStep::HttpsOnly(!allow),
    );
    lemma_first_rejected_of_plan(options);
    lemma_first_rejected_of_plan(changed);
}

proof fn lemma_protocol_after_concat(
    before: Protocol,
    a: Seq<TransportStep>,
    b: Seq<TransportStep>,
)
    ensures
        protocol_after(before, a + b) == protocol_after(protocol_after(before, a), b),
    decreases b.len(),
{
    if b.len() == 0 {
        assert(a + b =~= a);
    } else {
        assert((a + b).last() == b.last());
        assert((a + b).drop_last() =~= a + b.drop_last());
        lemma_protocol_after_concat(before, a, b.drop_last());
    }
}

proof fn lemma_protocol_after_one(before: Protocol, step: TransportStep)
    ensures
        protocol_after(before, seq![step]) == match step {
            TransportStep::Http1Only => Protocol::Http1Only,
            TransportStep::Http2PriorKnowledge => Protocol::Http2PriorKnowledge,
            _ => before,
        },
{
    let steps = seq![step];
    assert(steps.last() == step);
    assert(protocol_after(before, steps.drop_last()) == before);
}

/// Steps that do not restrict the protocol leave it as it was.
proof fn lemma_protocol_kept(
    before: Protocol,
    a: Seq<TransportStep>,
    present: bool,
    step: TransportStep,
)
    requires
        step !is Http1Only,
        step !is Http2PriorKnowledge,
    ensures
        protocol_after(before, a + step_if(present, step)) == protocol_after(before, a),
{
    lemma_protocol_after_concat(before, a, step_if(present, step));
    if present {
        lemma_protocol_after_one(protocol_after(before, a), step);
    }
}

proof fn lemma_protocol_kept_by_timeout_steps(options: ClientOptionsView, before: Protocol)
    ensures
        protocol_after(before, options.timeout_steps()) == before,
{
    let empty = Seq::<TransportStep>::empty();
    let timeout = step_if(options.timeout is Some, TransportStep::Timeout(options.timeout.unwrap()));
    let connect = step_if(
        options.connect_timeout is Some,
        TransportStep::ConnectTimeout(options.connect_timeout.unwrap()),
    );
    let idle = step_if(
        options.pool_idle_timeout is Some,
        TransportStep::PoolIdleTimeout(options.pool_idle_timeout.unwrap()),
    );
    assert(empty + timeout =~= timeout);
    lemma_protocol_kept(
        before,
        empty,
        options.timeout is Some,
        TransportStep::Timeout(options.timeout.unwrap()),
    );
    lemma_protocol_kept(
        before,
        timeout,
        options.connect_timeout is Some,
        TransportStep::ConnectTimeout(options.connect_timeout.unwrap()),
    );
    lemma_protocol_kept(
        before,
        timeout + connect,
        options.pool_idle_timeout is Some,
        TransportStep::PoolIdleTimeout(options.pool_idle_timeout.unwrap()),
    );
    lemma_protocol_kept(
        before,
        timeout + connect + idle,
        options.pool_max_idle_per_host is Some,
        TransportStep::PoolMaxIdlePerHost(options.pool_max_idle_per_host.unwrap()),
    );
}

proof fn lemma_protocol_kept_by_keep_alive_steps(options: ClientOptionsView, before: Protocol)
    ensures
        protocol_after(before, options.keep_alive_steps()) == before,
{
    let empty = Seq::<TransportStep>::empty();
    let interval = step_if(
        options.http2_keep_alive_interval is Some,
        TransportStep::Http2KeepAliveInterval(options.http2_keep_alive_interval.unwrap()),
    );
    let timeout = step_if(
        options.http2_keep_alive_timeout is Some,
        TransportStep::Http2KeepAliveTimeout(options.http2_keep_alive_timeout.unwrap()),
    );
    assert(empty + interval =~= interval);
    lemma_protocol_kept(
        before,
        empty,
        options.http2_keep_alive_interval is Some,
        TransportStep::Http2KeepAliveInterval(options.http2_keep_alive_interval.unwrap()),
    );
    lemma_protocol_kept(
        before,
        interval,
        options.http2_keep_alive_timeout is Some,
        TransportStep::Http2KeepAliveTimeout(options.http2_keep_alive_timeout.unwrap()),
    );
    lemma_protocol_kept(
        before,
        interval + timeout,
        options.http2_keep_alive_while_idle,
        TransportStep::Http2KeepAliveWhileIdle,
    );
}

/// What each part of the plan does to the protocol restriction: the
/// protocol steps set it, HTTP/2 last; every other part leaves it alone.
proof fn lemma_protocol_after_parts(options: ClientOptionsView, before: Protocol)
    ensures
        protocol_after(before, options.identification_steps()) == before,
        protocol_after(before, options.header_steps()) == before,
        protocol_after(before, options.proxy_steps()) == before,
        protocol_after(before, options.timeout_steps()) == before,
        protocol_after(before, options.keep_alive_steps()) == before,
        protocol_after(before, options.protocol_steps()) == if options.http2_only {
            Protocol::Http2PriorKnowledge
        } else if options.http1_only {
            Protocol::Http1Only
        } else {
            before
        },
        protocol_after(before, options.tls_steps()) == before,
{
    let empty = Seq::<TransportStep>::empty();
    assert(protocol_after(before, options.identification_steps()) == before) by {
        lemma_protocol_after_one(before, options.identification_steps()[0]);
        assert(options.identification_steps() =~= seq![options.identification_steps()[0]]);
    }
    assert(protocol_after(before, options.header_steps()) == before) by {
        assert(empty + options.header_steps() =~= options.header_steps());
        lemma_protocol_kept(
            before,
            empty,
            options.default_headers is Some,
            TransportStep::DefaultHeaders(options.default_headers.unwrap()),
        );
    }
    assert(protocol_after(before, options.proxy_steps()) == before) by {
        assert(empty + options.proxy_steps() =~= options.proxy_steps());
        lemma_protocol_kept(
            before,
            empty,
            options.proxy_url is Some,
            TransportStep::Proxy(options.proxy_url.unwrap()),
        );
    }
    lemma_protocol_kept_by_timeout_steps(options, before);
    lemma_protocol_kept_by_keep_alive_steps(options, before);
    assert(protocol_after(before, options.protocol_steps()) == if options.http2_only {
        Protocol::Http2PriorKnowledge
    } else if options.http1_only {
        Protocol::Http1Only
    } else {
        before
    }) by {
        let http1 = step_if(options.http1_only, TransportStep::Http1Only);
        let http2 = step_if(options.http2_only, TransportStep::Http2PriorKnowledge);
        lemma_protocol_after_concat(before, http1, http2);
        if options.http1_only {
            lemma_protocol_after_one(before, TransportStep::Http1Only);
        }
        if options.http2_only {
            lemma_protocol_after_one(protocol_after(before, http1), TransportStep::Http2PriorKnowledge);
        }
    }
    assert(protocol_after(before, options.tls_steps()) == before) by {
        let accept = step_if(options.allow_insecure, TransportStep::AcceptInvalidCerts);
        let https_only = TransportStep::HttpsOnly(!options.allow_http);
        assert(empty + accept =~= accept);
        lemma_protocol_kept(before, empty, options.allow_insecure, TransportStep::AcceptInvalidCerts);
        assert(seq![https_only] =~= step_if(true, https_only));
        lemma_protocol_kept(before, accept, true, https_only);
    }
}

/// The protocol restriction that the plan leaves in force is the one that the
/// configuration names: HTTP/2 where it is asked for, also together with
/// HTTP/1; HTTP/1 where only that is asked for; otherwise none.
pub proof fn lemma_protocol_of_plan(options: ClientOptionsView)
    ensures
        protocol_after(Protocol::Negotiated, options.transport_plan()) == options.protocol(),
{
    let start = Protocol::Negotiated;
    let through_headers = options.identification_steps() + options.header_steps();
    let through_proxy = through_headers + options.proxy_steps();
    let through_timeouts = through_proxy + options.timeout_steps();
    let through_keep_alive = through_timeouts + options.keep_alive_steps();
    let through_protocol = through_keep_alive + options.protocol_steps();
    lemma_protocol_after_parts(options, start);
    lemma_protocol_after_parts(options, options.protocol());
    lemma_protocol_after_concat(start, options.identification_steps(), options.header_steps());
    lemma_protocol_after_concat(start, through_headers, options.proxy_steps());
    lemma_protocol_after_concat(start, through_proxy, options.timeout_steps());
    lemma_protocol_after_concat(start, through_timeouts, options.keep_alive_steps());
    lemma_protocol_after_concat(start, through_keep_alive, options.protocol_steps());
    lemma_protocol_after_concat(start, through_protocol, options.tls_steps());
}

} // verus!
