use vstd::prelude::*;
use crate::access_point::{
    parse_scan_result, scan_result_of, AccessPoint, AccessPointView,
};
use crate::attribute::{attribute_views, RawAttribute};
use crate::attributes::Attribute;
use crate::command::Command;
use crate::error::WirelessError;
use crate::frame::{frame_header_of, FrameHeader, FrameHeaderView};
use crate::generic::{parsed_message, Message, MessageView};
use crate::ranking::{access_point_views, ranked, sort_access_points};
use crate::request::{
    device_of, request_for, request_view, MessageMode, Request, RequestView, WirelessDeviceId,
};
use crate::transport::{transport_views, TransportMessage, TransportView};

verus! {

/// What is to be done after a message of the control channel was handled.
#[derive(Clone, Debug, PartialEq, Eq)]
pub enum ControlAction {
    Nothing,
    /// A command that is not handled further is to be reported.
    Report(Message),
    /// The scan results of a finished dump are to be shown, in this order.
    Present(Vec<AccessPoint>),
}

/// What a `ControlAction` holds.
pub enum ControlActionView {
    Nothing,
    Report(MessageView),
    Present(Seq<AccessPointView>),
}

impl View for ControlAction {
    type V = ControlActionView;

    open spec fn view(&self) -> ControlActionView {
        match self {
            ControlAction::Nothing => ControlActionView::Nothing,
            ControlAction::Report(message) => ControlActionView::Report(message@),
            ControlAction::Present(access_points) => ControlActionView::Present(
                access_point_views(access_points@),
            ),
        }
    }
}

/// What is to be done after a message of the event channel was handled.
#[derive(Clone, Debug, PartialEq, Eq)]
pub enum EventAction {
    Nothing,
    /// A request is to be sent on the control channel.
    Send(Request),
    /// A notification is to be reported, with the headers of the management
    /// frames that it carries.
    Report { message: Message, frames: Vec<FrameHeader> },
}

/// What an `EventAction` holds.
pub enum EventActionView {
    Nothing,
    Send(RequestView),
    Report { message: MessageView, frames: Seq<FrameHeaderView> },
}

/// The views of a run of frame headers, in order.
pub open spec fn frame_views(frames: Seq<FrameHeader>) -> Seq<FrameHeaderView> {
    frames.map_values(|f: FrameHeader| f@)
}

impl View for EventAction {
    type V = EventActionView;

    open spec fn view(&self) -> EventActionView {
        match self {
            EventAction::Nothing => EventActionView::Nothing,
            EventAction::Send(request) => EventActionView::Send(request@),
            EventAction::Report { message, frames } => EventActionView::Report {
                message: message@,
                frames: frame_views(frames@),
            },
        }
    }
}

/// The view of what handling a control message gave, or the error.
pub open spec fn control_outcome(r: Result<ControlAction, WirelessError>) -> Result<
    ControlActionView,
    WirelessError,
> {
    match r {
        Ok(action) => Ok(action@),
        Err(e) => Err(e),
    }
}

/// The view of what handling an event message gave, or the error.
pub open spec fn event_outcome(r: Result<EventAction, WirelessError>) -> Result<
    EventActionView,
    WirelessError,
> {
    match r {
        Ok(action) => Ok(action@),
        Err(e) => Err(e),
    }
}

/// The views of the outcomes of a batch of control messages, in order.
pub open spec fn control_outcomes(outcomes: Seq<Result<ControlAction, WirelessError>>) -> Seq<
    Result<ControlActionView, WirelessError>,
> {
    outcomes.map_values(|r: Result<ControlAction, WirelessError>| control_outcome(r))
}

/// The views of the outcomes of a batch of event messages, in order.
pub open spec fn event_outcomes(outcomes: Seq<Result<EventAction, WirelessError>>) -> Seq<
    Result<EventActionView, WirelessError>,
> {
    outcomes.map_values(|r: Result<EventAction, WirelessError>| event_outcome(r))
}

/// A session with the wireless subsystem: the command whose answer is
/// awaited on the control channel, if any, and the scan results gathered
/// from a dump that has not ended yet.
#[derive(Clone, Debug, PartialEq, Eq)]
pub struct Monitor {
    family: u16,
    control_command: Option<Command>,
    scan_results: Vec<AccessPoint>,
}

/// What a `Monitor` holds.
pub struct MonitorView {
    pub family: u16,
    pub control_command: Option<Command>,
    pub scan_results: Seq<AccessPointView>,
}

impl View for Monitor {
    type V = MonitorView;

    closed spec fn view(&self) -> MonitorView {
        MonitorView {
            family: self.family,
            control_command: self.control_command,
            scan_results: access_point_views(self.scan_results@),
        }
    }
}

/// Whether the session awaits more scan results of a dump.
pub open spec fn gathering(session: MonitorView) -> bool {
    session.control_command == Some(Command::NewScanResults)
}

/// The session after a message of the control channel, and what is to be
/// done. A message of another family changes nothing. A scan result is
/// added to the results, which are emptied first unless the session was
/// gathering already; any other command is reported and awaited. An
/// acknowledgement ends the wait. The end of a dump ends the wait too, and
/// if the session was gathering, the results are handed out in ranking
/// order and emptied. A message that cannot be read is an error.
pub open spec fn control_step(session: MonitorView, message: TransportView) -> Result<
    (MonitorView, ControlActionView),
    WirelessError,
> {
    match message {
        TransportView::Data { identifier, data } => {
            if identifier != session.family {
                Ok((session, ControlActionView::Nothing))
            } else {
                match parsed_message(data) {
                    Err(e) => Err(e),
                    Ok(content) => {
                        let command = Command::of_code(content.command);
                        if command == Command::NewScanResults {
                            match scan_result_of(content) {
                                Err(e) => Err(e),
                                Ok(access_point) => {
                                    let kept = if gathering(session) {
                                        session.scan_results
                                    } else {
                                        Seq::empty()
                                    };
                                    Ok(
                                        (
                                            MonitorView {
                                                control_command: Some(command),
                                                scan_results: kept.push(access_point),
                                                ..session
                                            },
                                            ControlActionView::Nothing,
                                        ),
                                    )
                                },
                            }
                        } else {
                            Ok(
                                (
                                    MonitorView { control_command: Some(command), ..session },
                                    ControlActionView::Report(content),
                                ),
                            )
                        }
                    },
                }
            }
        },
        TransportView::Acknowledge => Ok(
            (MonitorView { control_command: None, ..session }, ControlActionView::Nothing),
        ),
        TransportView::Done => {
            if gathering(session) {
                Ok(
                    (
                        MonitorView {
                            control_command: None,
                            scan_results: Seq::empty(),
                            ..session
                        },
                        ControlActionView::Present(ranked(session.scan_results)),
                    ),
                )
            } else {
                Ok((MonitorView { control_command: None, ..session }, ControlActionView::Nothing))
            }
        },
    }
}

/// The session after a command was issued on the control channel, and the
/// request that is to be sent: the answer to the command is awaited from
/// then on. A command without a device is refused and changes nothing.
pub open spec fn issue_step(
    session: MonitorView,
    device: WirelessDeviceId,
    command: Command,
    mode: MessageMode,
) -> Result<(MonitorView, RequestView), WirelessError> {
    match request_for(session.family, device, command, mode) {
        Ok(request) => Ok((MonitorView { control_command: Some(command), ..session }, request)),
        Err(e) => Err(e),
    }
}

/// The headers of the management frames among the attributes, in order;
/// a frame that is cut short is an error.
pub open spec fn frames_of(attributes: Seq<(u16, Seq<u8>)>) -> Result<
    Seq<FrameHeaderView>,
    WirelessError,
>
    decreases attributes.len(),
{
    if attributes.len() == 0 {
        Ok(Seq::empty())
    } else {
        match frames_of(attributes.drop_last()) {
            Err(e) => Err(e),
            Ok(frames) => {
                if Attribute::of_code(attributes.last().0) == Attribute::Frame {
                    match frame_header_of(attributes.last().1) {
                        Ok(header) => Ok(frames.push(header)),
                        Err(e) => Err(e),
                    }
                } else {
                    Ok(frames)
                }
            },
        }
    }
}

/// Once reading the frames of a run of attributes has failed at some
/// length, it fails with the same error for the whole run.
pub proof fn lemma_frames_error_stays(attributes: Seq<(u16, Seq<u8>)>, n: int)
    requires
        0 <= n <= attributes.len(),
    ensures
        frames_of(attributes.take(n)) is Err ==> frames_of(attributes) == frames_of(
            attributes.take(n),
        ),
    decreases attributes.len() - n,
{
    if n == attributes.len() {
        assert(attributes.take(n) =~= attributes);
    } else if frames_of(attributes.take(n)) is Err {
        assert(attributes.take(n + 1).drop_last() =~= attributes.take(n));
        lemma_frames_error_stays(attributes, n + 1);
    }
}

/// The session after a message of the event channel, and what is to be
/// done. Markers, messages of another family and the start of a scan
/// change nothing. The news that scan results are ready makes the session
/// ask for them: a dump request for the device that the news names is to be
/// sent, and its answer is awaited. Any other notification is reported with
/// the headers of its management frames.
pub open spec fn event_step(session: MonitorView, message: TransportView) -> Result<
    (MonitorView, EventActionView),
    WirelessError,
> {
    match message {
        TransportView::Data { identifier, data } => {
            if identifier != session.family {
                Ok((session, EventActionView::Nothing))
            } else {
                match parsed_message(data) {
                    Err(e) => Err(e),
                    Ok(content) => {
                        match Command::of_code(content.command) {
                            Command::TriggerScan => Ok((session, EventActionView::Nothing)),
                            Command::NewScanResults => {
                                match issue_step(
                                    session,
                                    device_of(content.attributes),
                                    Command::GetScan,
                                    MessageMode::Dump,
                                ) {
                                    Ok((after, request)) => Ok(
                                        (after, EventActionView::Send(request)),
                                    ),
                                    Err(e) => Err(e),
                                }
                            },
                            _ => {
                                match frames_of(content.attributes) {
                                    Ok(frames) => Ok(
                                        (
                                            session,
                                            EventActionView::Report { message: content, frames },
                                        ),
                                    ),
                                    Err(e) => Err(e),
                                }
                            },
                        }
                    },
                }
            }
        },
        TransportView::Acknowledge => Ok((session, EventActionView::Nothing)),
        TransportView::Done => Ok((session, EventActionView::Nothing)),
    }
}

/// The session after a batch of control messages, and the outcome of each
/// message in order. A message that fails leaves the session as it was and
/// does not stop the batch.
pub open spec fn control_run(session: MonitorView, messages: Seq<TransportView>) -> (
    MonitorView,
    Seq<Result<ControlActionView, WirelessError>>,
)
    decreases messages.len(),
{
    if messages.len() == 0 {
        (session, Seq::empty())
    } else {
        let (before, outcomes) = control_run(session, messages.drop_last());
        match control_step(before, messages.last()) {
            Ok((after, action)) => (after, outcomes.push(Ok(action))),
            Err(e) => (before, outcomes.push(Err(e))),
        }
    }
}

/// The session after a batch of event messages, and the outcome of each
/// message in order. A message that fails leaves the session as it was and
/// does not stop the batch.
pub open spec fn event_run(session: MonitorView, messages: Seq<TransportView>) -> (
    MonitorView,
    Seq<Result<EventActionView, WirelessError>>,
)
    decreases messages.len(),
{
    if messages.len() == 0 {
        (session, Seq::empty())
    } else {
        let (before, outcomes) = event_run(session, messages.drop_last());
        match event_step(before, messages.last()) {
            Ok((after, action)) => (after, outcomes.push(Ok(action))),
            Err(e) => (before, outcomes.push(Err(e))),
        }
    }
}

/// Reads the headers of the management frames among the attributes.
pub fn parse_frames(attributes: &Vec<RawAttribute>) -> (r: Result<Vec<FrameHeader>, WirelessError>)
    ensures
        match frames_of(attribute_views(attributes@)) {
            Ok(frames) => r is Ok && frame_views(r->Ok_0@) == frames,
            Err(e) => r == Err::<Vec<FrameHeader>, WirelessError>(e),
        },
{
    let ghost views = attribute_views(attributes@);
    let mut frames: Vec<FrameHeader> = Vec::new();
    let mut i: usize = 0;
    assert(views.take(0) =~= Seq::empty());
    assert(frame_views(frames@) =~= Seq::empty());
    while i < attributes.len()
        invariant
            i <= attributes@.len(),
            views == attribute_views(attributes@),
            frames_of(views.take(i as int)) == Ok::<Seq<FrameHeaderView>, WirelessError>(
                frame_views(frames@),
            ),
        decreases attributes@.len() - i,
    {
        let attribute = &attributes[i];
        proof {
            assert(views.take(i + 1).drop_last() =~= views.take(i as int));
            assert(views.take(i + 1).last() == attribute@);
            lemma_frames_error_stays(views, i + 1);
        }
        match Attribute::from(attribute.identifier) {
            Attribute::Frame => {
                let header = FrameHeader::parse(attribute.data.as_slice())?;
                assert(frame_views(frames@.push(header)) =~= frame_views(frames@).push(header@));
                frames.push(header);
            },
            _ => (),
        }
        i = i + 1;
    }
    assert(views.take(i as int) =~= views);
    Ok(frames)
}

impl Monitor {
    /// A session for the protocol family with the given identifier: no
    /// command is awaited, no result is held.
    pub fn new(family: u16) -> (r: Monitor)
        ensures
            r@ == (MonitorView { family, control_command: None, scan_results: Seq::empty() }),
    {
        let scan_results: Vec<AccessPoint> = Vec::new();
        assert(access_point_views(scan_results@) =~= Seq::empty());
        Monitor { family, control_command: None, scan_results }
    }

    /// The identifier of the protocol family.
    pub fn family(&self) -> (r: u16)
        ensures
            r == self@.family,
    {
        self.family
    }

    /// The command whose answer is awaited, if any.
    pub fn control_command(&self) -> (r: Option<Command>)
        ensures
            r == self@.control_command,
    {
        self.control_command
    }

    /// The scan results gathered so far.
    pub fn scan_results(&self) -> (r: &Vec<AccessPoint>)
        ensures
            access_point_views(r@) == self@.scan_results,
    {
        &self.scan_results
    }

    /// Makes the request that sends `command` to `device` for this
    /// session's family. Fails with `NoInterfaceIdentifier` where no device
    /// is named.
    pub fn prepare_message(
        &self,
        device: WirelessDeviceId,
        command: Command,
        mode: MessageMode,
    ) -> (r: Result<Request, WirelessError>)
        ensures
            request_view(r) == request_for(self@.family, device, command, mode),
    {
        Request::prepare(self.family, device, command, mode)
    }

    /// Issues a command on the control channel: makes the request that is
    /// to be sent, and awaits its answer from now on. On an error the session
    /// is left as it was.
    pub fn issue(&mut self, device: WirelessDeviceId, command: Command, mode: MessageMode) -> (r:
        Result<Request, WirelessError>)
        ensures
            match issue_step(old(self)@, device, command, mode) {
                Ok((session, request)) => final(self)@ == session && request_view(r) == Ok::<
                    RequestView,
                    WirelessError,
                >(request),
                Err(e) => final(self)@ == old(self)@ && r == Err::<Request, WirelessError>(e),
            },
    {
        let request = self.prepare_message(device, command, mode)?;
        self.control_command = Some(command);
        Ok(request)
    }

    /// Handles one message of the control channel. On an error the
    /// session is left as it was.
    pub fn handle_control_message(&mut self, message: &TransportMessage) -> (r: Result<
        ControlAction,
        WirelessError,
    >)
        ensures
            match control_step(old(self)@, message@) {
                Ok((session, action)) => final(self)@ == session && control_outcome(r) == Ok::<
                    ControlActionView,
                    WirelessError,
                >(action),
                Err(e) => final(self)@ == old(self)@ && r == Err::<ControlAction, WirelessError>(e),
            },
    {
        match message {
            TransportMessage::Data { identifier, data } => {
                if *identifier != self.family {
                    return Ok(ControlAction::Nothing);
                }
                let content = Message::parse(data.as_slice())?;
                let command = Command::from(content.command);
                if command == Command::NewScanResults {
                    let access_point = parse_scan_result(&content)?;
                    let gathering = match self.control_command {
                        Some(awaited) => awaited == Command::NewScanResults,
                        None => false,
                    };
                    if !gathering {
                        self.scan_results.clear();
                    }
                    proof {
                        let ghost kept = self.scan_results@;
                        assert(access_point_views(kept.push(access_point)) =~= access_point_views(
                            kept,
                        ).push(access_point@));
                        assert(access_point_views(Seq::<AccessPoint>::empty()) =~= Seq::<
                            AccessPointView,
                        >::empty());
                    }
                    self.scan_results.push(access_point);
                    self.control_command = Some(command);
                    Ok(ControlAction::Nothing)
                } else {
                    self.control_command = Some(command);
                    Ok(ControlAction::Report(content))
                }
            },
            TransportMessage::Acknowledge => {
                self.control_command = None;
                Ok(ControlAction::Nothing)
            },
            TransportMessage::Done => {
                let gathering = match self.control_command {
                    Some(awaited) => awaited == Command::NewScanResults,
                    None => false,
                };
                self.control_command = None;
                if gathering {
                    let mut results: Vec<AccessPoint> = Vec::new();
                    results.append(&mut self.scan_results);
                    proof {
                        assert(results@ =~= old(self).scan_results@);
                        assert(access_point_views(self.scan_results@) =~= Seq::<
                            AccessPointView,
                        >::empty());
                    }
                    sort_access_points(&mut results);
                    Ok(ControlAction::Present(results))
                } else {
                    Ok(ControlAction::Nothing)
                }
            },
        }
    }

    /// Handles one message of the event channel. On an error the session
    /// is left as it was.
    pub fn handle_event_message(&mut self, message: &TransportMessage) -> (r: Result<
        EventAction,
        WirelessError,
    >)
        ensures
            match event_step(old(self)@, message@) {
                Ok((session, action)) => final(self)@ == session && event_outcome(r) == Ok::<
                    EventActionView,
                    WirelessError,
                >(action),
                Err(e) => final(self)@ == old(self)@ && r == Err::<EventAction, WirelessError>(e),
            },
    {
        match message {
            TransportMessage::Data { identifier, data } => {
                if *identifier != self.family {
                    return Ok(EventAction::Nothing);
                }
                let content = Message::parse(data.as_slice())?;
                match Command::from(content.command) {
                    Command::TriggerScan => Ok(EventAction::Nothing),
                    Command::NewScanResults => {
                        let device = WirelessDeviceId::from_attributes(&content.attributes);
                        let request = self.issue(device, Command::GetScan, MessageMode::Dump)?;
                        Ok(EventAction::Send(request))
                    },
                    _ => {
                        let frames = parse_frames(&content.attributes)?;
                        Ok(EventAction::Report { message: content, frames })
                    },
                }
            },
            TransportMessage::Acknowledge => Ok(EventAction::Nothing),
            TransportMessage::Done => Ok(EventAction::Nothing),
        }
    }

    /// Handles a batch of messages of the control channel, first to last,
    /// and gives the outcome of each.
    pub fn handle_control_messages(&mut self, messages: &Vec<TransportMessage>) -> (r: Vec<
        Result<ControlAction, WirelessError>,
    >)
        ensures
            (final(self)@, control_outcomes(r@)) == control_run(
                old(self)@,
                transport_views(messages@),
            ),
    {
        let ghost views = transport_views(messages@);
        let mut outcomes: Vec<Result<ControlAction, WirelessError>> = Vec::new();
        let mut i: usize = 0;
        assert(views.take(0) =~= Seq::empty());
        assert(control_outcomes(outcomes@) =~= Seq::empty());
        while i < messages.len()
            invariant
                i <= messages@.len(),
                views == transport_views(messages@),
                (self@, control_outcomes(outcomes@)) == control_run(
                    old(self)@,
                    views.take(i as int),
                ),
            decreases messages@.len() - i,
        {
            proof {
                assert(views.take(i + 1).drop_last() =~= views.take(i as int));
                assert(views.take(i + 1).last() == messages@[i as int]@);
            }
            let outcome = self.handle_control_message(&messages[i]);
            assert(control_outcomes(outcomes@.push(outcome)) =~= control_outcomes(outcomes@).push(
                control_outcome(outcome),
            ));
            outcomes.push(outcome);
            i = i + 1;
        }
        assert(views.take(i as int) =~= views);
        outcomes
    }

    /// Handles a batch of messages of the event channel, first to last,
    /// and gives the outcome of each.
    pub fn handle_event_messages(&mut self, messages: &Vec<TransportMessage>) -> (r: Vec<
        Result<EventAction, WirelessError>,
    >)
        ensures
            (final(self)@, event_outcomes(r@)) == event_run(
                old(self)@,
                transport_views(messages@),
            ),
    {
        let ghost views = transport_views(messages@);
        let mut outcomes: Vec<Result<EventAction, WirelessError>> = Vec::new();
        let mut i: usize = 0;
        assert(views.take(0) =~= Seq::empty());
        assert(event_outcomes(outcomes@) =~= Seq::empty());
        while i < messages.len()
            invariant
                i <= messages@.len(),
                views == transport_views(messages@),
                (self@, event_outcomes(outcomes@)) == event_run(old(self)@, views.take(i as int)),
            decreases messages@.len() - i,
        {
            proof {
                assert(views.take(i + 1).drop_last() =~= views.take(i as int));
                assert(views.take(i + 1).last() == messages@[i as int]@);
            }
            let outcome = self.handle_event_message(&messages[i]);
            assert(event_outcomes(outcomes@.push(outcome)) =~= event_outcomes(outcomes@).push(
                event_outcome(outcome),
            ));
            outcomes.push(outcome);
            i = i + 1;
        }
        assert(views.take(i as int) =~= views);
        outcomes
    }
}

} // verus!
