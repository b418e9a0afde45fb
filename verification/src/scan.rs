use vstd::prelude::*;
use crate::access_point::{
    carried_scan_result, parse_scan_payload, AccessPoint, AccessPointView,
};
use crate::command::Command;
use crate::error::WirelessError;
use crate::ranking::{access_point_views, ranked, sort_access_points};
use crate::request::{request_for, request_view, MessageMode, Request, WirelessDeviceId};
use crate::transport::{transport_views, TransportMessage, TransportView};

verus! {

/// One fetch of the results of the last scan: the results read so far from
/// the answers to a dump request.
#[derive(Clone, Debug, PartialEq, Eq)]
pub struct ScanRequest {
    family: u16,
    access_points: Vec<AccessPoint>,
}

/// What a `ScanRequest` holds.
pub struct ScanRequestView {
    pub family: u16,
    pub access_points: Seq<AccessPointView>,
}

impl View for ScanRequest {
    type V = ScanRequestView;

    closed spec fn view(&self) -> ScanRequestView {
        ScanRequestView {
            family: self.family,
            access_points: access_point_views(self.access_points@),
        }
    }
}

/// Whether the fetch goes on after a batch of answers.
#[derive(Clone, Debug, PartialEq, Eq)]
pub enum FetchStep {
    /// The channel is to be read again.
    More,
    /// The fetch has ended; these are its results, in ranking order.
    Finished(Vec<AccessPoint>),
}

/// What a `FetchStep` holds.
pub enum FetchStepView {
    More,
    Finished(Seq<AccessPointView>),
}

impl View for FetchStep {
    type V = FetchStepView;

    open spec fn view(&self) -> FetchStepView {
        match self {
            FetchStep::More => FetchStepView::More,
            FetchStep::Finished(access_points) => FetchStepView::Finished(
                access_point_views(access_points@),
            ),
        }
    }
}

/// The scan results that a batch of answers carries, in order: one for
/// each data message of the family. Markers and messages of other families
/// carry none. A data message of the family without a scan result that can
/// be read is an error.
pub open spec fn batch_results(family: u16, messages: Seq<TransportView>) -> Result<
    Seq<AccessPointView>,
    WirelessError,
>
    decreases messages.len(),
{
    if messages.len() == 0 {
        Ok(Seq::empty())
    } else {
        match batch_results(family, messages.drop_last()) {
            Err(e) => Err(e),
            Ok(results) => match messages.last() {
                TransportView::Data { identifier, data } => if identifier == family {
                    match carried_scan_result(data) {
                        Ok(access_point) => Ok(results.push(access_point)),
                        Err(e) => Err(e),
                    }
                } else {
                    Ok(results)
                },
                _ => Ok(results),
            },
        }
    }
}

/// Once reading a batch has failed at some length, it fails with the same
/// error for the whole batch.
pub proof fn lemma_batch_error_stays(family: u16, messages: Seq<TransportView>, n: int)
    requires
        0 <= n <= messages.len(),
    ensures
        batch_results(family, messages.take(n)) is Err ==> batch_results(family, messages)
            == batch_results(family, messages.take(n)),
    decreases messages.len() - n,
{
    if n == messages.len() {
        assert(messages.take(n) =~= messages);
    } else if batch_results(family, messages.take(n)) is Err {
        assert(messages.take(n + 1).drop_last() =~= messages.take(n));
        lemma_batch_error_stays(family, messages, n + 1);
    }
}

/// The fetch after a batch of answers, and whether it goes on. An empty
/// batch ends the fetch: the results read so far are handed out in ranking
/// order. Any other batch adds the results that it carries.
pub open spec fn fetch_step(fetch: ScanRequestView, messages: Seq<TransportView>) -> Result<
    (ScanRequestView, FetchStepView),
    WirelessError,
> {
    if messages.len() == 0 {
        Ok(
            (
                ScanRequestView { access_points: Seq::empty(), ..fetch },
                FetchStepView::Finished(ranked(fetch.access_points)),
            ),
        )
    } else {
        match batch_results(fetch.family, messages) {
            Ok(results) => Ok(
                (
                    ScanRequestView { access_points: fetch.access_points + results, ..fetch },
                    FetchStepView::More,
                ),
            ),
            Err(e) => Err(e),
        }
    }
}

impl ScanRequest {
    /// A fetch for the protocol family with the given identifier, with no
    /// result read yet.
    pub fn new(family: u16) -> (r: ScanRequest)
        ensures
            r@ == (ScanRequestView { family, access_points: Seq::empty() }),
    {
        let access_points: Vec<AccessPoint> = Vec::new();
        assert(access_point_views(access_points@) =~= Seq::empty());
        ScanRequest { family, access_points }
    }

    /// The results read so far.
    pub fn access_points(&self) -> (r: &Vec<AccessPoint>)
        ensures
            access_point_views(r@) == self@.access_points,
    {
        &self.access_points
    }

    /// The dump request that starts the fetch for a device.
    pub fn request(&self, device: WirelessDeviceId) -> (r: Result<Request, WirelessError>)
        ensures
            request_view(r) == request_for(
                self@.family,
                device,
                Command::GetScan,
                MessageMode::Dump,
            ),
    {
        Request::prepare(self.family, device, Command::GetScan, MessageMode::Dump)
    }

    /// Takes in one batch of answers. On an error the fetch is left as it
    /// was.
    pub fn receive(&mut self, messages: &Vec<TransportMessage>) -> (r: Result<
        FetchStep,
        WirelessError,
    >)
        ensures
            match fetch_step(old(self)@, transport_views(messages@)) {
                Ok((fetch, step)) => final(self)@ == fetch && r is Ok && r->Ok_0@ == step,
                Err(e) => final(self)@ == old(self)@ && r == Err::<FetchStep, WirelessError>(e),
            },
    {
        let ghost views = transport_views(messages@);
        if messages.len() == 0 {
            let mut results: Vec<AccessPoint> = Vec::new();
            results.append(&mut self.access_points);
            proof {
                assert(results@ =~= old(self).access_points@);
                assert(access_point_views(self.access_points@) =~= Seq::<
                    AccessPointView,
                >::empty());
            }
            sort_access_points(&mut results);
            return Ok(FetchStep::Finished(results));
        }
        let mut fresh: Vec<AccessPoint> = Vec::new();
        let mut i: usize = 0;
        assert(views.take(0) =~= Seq::empty());
        assert(access_point_views(fresh@) =~= Seq::empty());
        while i < messages.len()
            invariant
                i <= messages@.len(),
                views == transport_views(messages@),
                views.len() > 0,
                *self == *old(self),
                batch_results(self.family, views.take(i as int)) == Ok::<
                    Seq<AccessPointView>,
                    WirelessError,
                >(access_point_views(fresh@)),
            decreases messages@.len() - i,
        {
            proof {
                assert(views.take(i + 1).drop_last() =~= views.take(i as int));
                assert(views.take(i + 1).last() == messages@[i as int]@);
                lemma_batch_error_stays(self.family, views, i + 1);
            }
            match &messages[i] {
                TransportMessage::Data { identifier, data } => {
                    if *identifier == self.family {
                        let access_point = parse_scan_payload(data.as_slice())?;
                        assert(access_point_views(fresh@.push(access_point))
                            =~= access_point_views(fresh@).push(access_point@));
                        fresh.push(access_point);
                    }
                },
                _ => (),
            }
            i = i + 1;
        }
        proof {
            assert(views.take(i as int) =~= views);
            assert(access_point_views(self.access_points@ + fresh@) =~= access_point_views(
                self.access_points@,
            ) + access_point_views(fresh@));
        }
        self.access_points.append(&mut fresh);
        Ok(FetchStep::More)
    }
}

} // verus!
