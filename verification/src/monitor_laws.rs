use vstd::prelude::*;
use crate::access_point::{carried_scan_result, AccessPointView};
use crate::command::Command;
use crate::error::WirelessError;
use crate::generic::parsed_message;
use crate::monitor::{control_run, control_step, gathering, ControlActionView, MonitorView};
use crate::ranking::ranked;
use crate::transport::TransportView;

verus! {

/// A dump is flushed once: when a session that is not gathering receives
/// two scan results and then the end of the dump, the first two messages
/// ask for nothing, the third hands out exactly those two results in
/// ranking order, and the session is left idle with no results held.
pub proof fn lemma_dump_is_flushed_once(session: MonitorView, first: Seq<u8>, second: Seq<u8>)
    requires
        !gathering(session),
        carried_scan_result(first) is Ok,
        carried_scan_result(second) is Ok,
    ensures
        control_run(
            session,
            seq![
                TransportView::Data { identifier: session.family, data: first },
                TransportView::Data { identifier: session.family, data: second },
                TransportView::Done,
            ],
        ) == (
            MonitorView { control_command: None, scan_results: Seq::empty(), ..session },
            seq![
                Ok::<ControlActionView, WirelessError>(ControlActionView::Nothing),
                Ok::<ControlActionView, WirelessError>(ControlActionView::Nothing),
                Ok::<ControlActionView, WirelessError>(
                    ControlActionView::Present(
                        ranked(
                            seq![
                                carried_scan_result(first)->Ok_0,
                                carried_scan_result(second)->Ok_0,
                            ],
                        ),
                    ),
                ),
            ],
        ),
{
    let a = TransportView::Data { identifier: session.family, data: first };
    let b = TransportView::Data { identifier: session.family, data: second };
    let c = TransportView::Done;
    let one = seq![a];
    let two = seq![a, b];
    let three = seq![a, b, c];
    let none = Seq::<TransportView>::empty();
    assert(one.drop_last() =~= none);
    assert(two.drop_last() =~= one);
    assert(three.drop_last() =~= two);
    assert(control_run(session, none) == (
        session,
        Seq::<Result<ControlActionView, WirelessError>>::empty(),
    ));
    let ra = carried_scan_result(first)->Ok_0;
    let rb = carried_scan_result(second)->Ok_0;
    let nothing = Ok::<ControlActionView, WirelessError>(ControlActionView::Nothing);
    let s1 = MonitorView {
        control_command: Some(Command::NewScanResults),
        scan_results: Seq::<AccessPointView>::empty().push(ra),
        ..session
    };
    assert(control_step(session, a) == Ok::<(MonitorView, ControlActionView), WirelessError>(
        (s1, ControlActionView::Nothing),
    ));
    assert(one.last() == a);
    assert(control_run(session, one) == (
        s1,
        Seq::<Result<ControlActionView, WirelessError>>::empty().push(nothing),
    ));
    let s2 = MonitorView { scan_results: s1.scan_results.push(rb), ..s1 };
    assert(control_step(s1, b) == Ok::<(MonitorView, ControlActionView), WirelessError>(
        (s2, ControlActionView::Nothing),
    ));
    assert(two.last() == b);
    assert(control_run(session, two) == (
        s2,
        Seq::<Result<ControlActionView, WirelessError>>::empty().push(nothing).push(nothing),
    ));
    assert(s2.scan_results =~= seq![ra, rb]);
    assert(three.last() == c);
    let s3 = MonitorView { control_command: None, scan_results: Seq::empty(), ..session };
    assert(control_step(s2, c) == Ok::<(MonitorView, ControlActionView), WirelessError>(
        (s3, ControlActionView::Present(ranked(seq![ra, rb]))),
    ));
    assert(control_run(session, three).1 =~= seq![
        nothing,
        nothing,
        Ok::<ControlActionView, WirelessError>(
            ControlActionView::Present(ranked(seq![ra, rb])),
        ),
    ]);
}

/// An acknowledgement and the end of a dump are always handled, and leave
/// the session idle.
pub proof fn lemma_markers_end_the_wait(session: MonitorView, message: TransportView)
    requires
        message is Acknowledge || message is Done,
    ensures
        control_step(session, message) is Ok,
        control_step(session, message)->Ok_0.0.control_command is None,
        control_step(session, message)->Ok_0.0.family == session.family,
{
}

/// Only a scan result and the end of a dump touch the results held: any
/// other message of the control channel leaves them as they were.
pub proof fn lemma_results_are_kept(session: MonitorView, message: TransportView)
    requires
        control_step(session, message) is Ok,
        !(message is Done && gathering(session)),
        message is Data ==> {
            ||| message->identifier != session.family
            ||| parsed_message(message->data) is Ok && Command::of_code(
                parsed_message(message->data)->Ok_0.command,
            ) != Command::NewScanResults
        },
    ensures
        control_step(session, message)->Ok_0.0.scan_results == session.scan_results,
{
}

/// While a dump goes on, each scan result is added behind those held.
pub proof fn lemma_gathering_appends(session: MonitorView, data: Seq<u8>)
    requires
        gathering(session),
        carried_scan_result(data) is Ok,
    ensures
        control_step(session, TransportView::Data { identifier: session.family, data }) == Ok::<
            (MonitorView, ControlActionView),
            WirelessError,
        >(
            (
                MonitorView {
                    scan_results: session.scan_results.push(carried_scan_result(data)->Ok_0),
                    ..session
                },
                ControlActionView::Nothing,
            ),
        ),
{
}

} // verus!
