//! Getting hold of the tablet over USB: finding it, claiming it, and putting it
//! into the mode in which it sends its reports.

use vstd::prelude::*;

use crate::usb::{
    configurations_in, get_configurations, get_hid_interface_descriptors, hid_interfaces,
    interface_models, is_report_endpoint, report_endpoint, report_endpoint_of, Configuration,
    DeviceIds, Direction, EndpointDescriptor, InterfaceDescriptor, InterfaceModel, TransferType,
    UsbError, REPORT_PACKET_SIZE,
};

verus! {

/// Request type of a report: host to device, class, interface.
pub const SET_REPORT_REQUEST_TYPE: u8 = 0x21;

/// The request that sets a report.
pub const SET_REPORT_REQUEST: u8 = 0x09;

/// Feature report, number eight.
pub const SET_REPORT_VALUE: u16 = 0x0308;

/// The interface that takes the report.
pub const SET_REPORT_INTERFACE: u16 = 2;

/// How long a control transfer may take, in milliseconds.
pub const CONTROL_TIMEOUT_MS: u64 = 250;

/// How long a read may take, in milliseconds.
pub const READ_TIMEOUT_MS: u64 = 3000;

/// How often opening the tablet is tried.
pub const OPEN_RETRIES: u32 = 10;

/// How long to wait for the tablet to settle, in milliseconds.
pub const RETRY_DELAY_MS: u64 = 500;

/// What to do after an attempt to open the tablet.
pub enum OpenStep {
    /// The tablet is open.
    Opened(PhysicalDevice),
    /// Wait, then make the attempt with this number.
    Retry { delay_ms: u64, attempt: u32 },
    /// Wait, then report the error.
    GiveUp { delay_ms: u64, error: UsbError },
}

/// What an [`OpenStep`] stands for.
pub enum OpenModel {
    Opened(DeviceModel),
    Retry { delay_ms: u64, attempt: u32 },
    GiveUp { delay_ms: u64, error: UsbError },
}

/// What to do after a reset of the tablet was tried.
#[derive(Clone, Copy, PartialEq, Eq, Structural, Debug)]
pub enum ResetStep {
    /// The reset is done.
    Done,
    /// Wait, then try once more.
    RetryAfter { delay_ms: u64 },
    /// Report the error.
    Fail { error: UsbError },
}

/// How far the tablet's initialization has got: which reply is waited for.
pub enum InitStage {
    /// None: it has not started, or it has ended.
    Idle,
    /// That to the request to detach kernel drivers.
    Detaching,
    /// The device descriptor.
    Describing,
    /// The configurations.
    Configuring,
    /// That to the claim of the interface at `claimed`.
    Claiming { interfaces: Vec<InterfaceDescriptor>, claimed: usize },
    /// That to the reset.
    Resetting,
    /// That to the second reset.
    ResettingAgain,
}

/// What an [`InitStage`] stands for.
pub enum StageModel {
    Idle,
    Detaching,
    Describing,
    Configuring,
    Claiming { interfaces: Seq<InterfaceModel>, claimed: nat },
    Resetting,
    ResettingAgain,
}

/// What to do next to initialize the tablet.
#[derive(Clone, Copy, PartialEq, Eq, Structural, Debug)]
pub enum InitAction {
    /// Have kernel drivers detached from claimed interfaces.
    EnableAutoDetach,
    /// Read the device descriptor.
    ReadDeviceDescriptor,
    /// Read this many configurations, from the first on.
    ReadConfigurations { count: u8 },
    /// Claim an interface.
    ClaimInterface { number: u8 },
    /// Reset the device.
    Reset,
    /// Wait, then reset the device.
    ResetAfter { delay_ms: u64 },
    /// The tablet is ready.
    Succeed,
    /// Report the error.
    Fail { error: UsbError },
}

/// What came of the last action.
pub enum InitReply {
    /// Whether a request that brings nothing back worked.
    Outcome(Result<(), UsbError>),
    /// How many configurations the device descriptor speaks of.
    DeviceDescriptor(Result<u8, UsbError>),
    /// The configurations.
    Configurations(Vec<Result<Configuration, UsbError>>),
}

/// What an [`InitReply`] stands for. Configurations that could not be read are
/// left out.
pub enum ReplyModel {
    Outcome(Result<(), UsbError>),
    DeviceDescriptor(Result<u8, UsbError>),
    Configurations(Seq<Seq<Seq<InterfaceModel>>>),
}

/// A request to read a report.
#[derive(Clone, Copy, PartialEq, Eq, Structural, Debug)]
pub struct ReadRequest {
    pub endpoint: u8,
    pub timeout_ms: u64,
}

/// A request to write over the control endpoint.
pub struct ControlTransfer {
    pub request_type: u8,
    pub request: u8,
    pub value: u16,
    pub index: u16,
    pub data: Vec<u8>,
    pub timeout_ms: u64,
}

/// What to do next to set reports.
#[derive(Clone, Copy, PartialEq, Eq, Structural, Debug)]
pub enum ReportStep {
    /// Make the transfer at this place.
    Write { place: usize },
    /// All reports are set.
    Done,
    /// Report the error.
    Fail { error: UsbError },
}

/// The tablet, as far as the driver keeps track of it.
pub struct PhysicalDevice {
    endpoint_address: u8,
    stage: InitStage,
}

/// What a [`PhysicalDevice`] stands for.
pub struct DeviceModel {
    pub endpoint_address: u8,
    pub stage: StageModel,
}

impl View for OpenStep {
    type V = OpenModel;

    open spec fn view(&self) -> OpenModel {
        match self {
            OpenStep::Opened(device) => OpenModel::Opened(device@),
            OpenStep::Retry { delay_ms, attempt } => OpenModel::Retry {
                delay_ms: *delay_ms,
                attempt: *attempt,
            },
            OpenStep::GiveUp { delay_ms, error } => OpenModel::GiveUp {
                delay_ms: *delay_ms,
                error: *error,
            },
        }
    }
}

impl View for InitStage {
    type V = StageModel;

    open spec fn view(&self) -> StageModel {
        match self {
            InitStage::Idle => StageModel::Idle,
            InitStage::Detaching => StageModel::Detaching,
            InitStage::Describing => StageModel::Describing,
            InitStage::Configuring => StageModel::Configuring,
            InitStage::Claiming { interfaces, claimed } => StageModel::Claiming {
                interfaces: interface_models(interfaces@),
                claimed: *claimed as nat,
            },
            InitStage::Resetting => StageModel::Resetting,
            InitStage::ResettingAgain => StageModel::ResettingAgain,
        }
    }
}

impl View for InitReply {
    type V = ReplyModel;

    open spec fn view(&self) -> ReplyModel {
        match self {
            InitReply::Outcome(outcome) => ReplyModel::Outcome(*outcome),
            InitReply::DeviceDescriptor(reply) => ReplyModel::DeviceDescriptor(*reply),
            InitReply::Configurations(replies) => ReplyModel::Configurations(
                configurations_in(replies@),
            ),
        }
    }
}

impl View for PhysicalDevice {
    type V = DeviceModel;

    closed spec fn view(&self) -> DeviceModel {
        DeviceModel { endpoint_address: self.endpoint_address, stage: self.stage@ }
    }
}

/// Whether a reply is of the kind that a stage waits for.
pub open spec fn reply_fits(stage: StageModel, reply: ReplyModel) -> bool {
    match stage {
        StageModel::Idle => false,
        StageModel::Describing => reply is DeviceDescriptor,
        StageModel::Configuring => reply is Configurations,
        StageModel::Claiming { interfaces, claimed } => reply is Outcome && claimed
            < interfaces.len(),
        _ => reply is Outcome,
    }
}

/// A device with nothing to initialize, or nothing left.
pub open spec fn idle(endpoint_address: u8) -> DeviceModel {
    DeviceModel { endpoint_address, stage: StageModel::Idle }
}

/// What to do after an attempt to open the tablet: a failed one is repeated
/// after a while, unless it was the last.
pub open spec fn open_step(attempt: u32, reply: Result<(), UsbError>) -> OpenModel {
    match reply {
        Ok(_) => OpenModel::Opened(idle(0)),
        Err(error) => if attempt < OPEN_RETRIES {
            OpenModel::Retry { delay_ms: RETRY_DELAY_MS, attempt: (attempt + 1) as u32 }
        } else {
            OpenModel::GiveUp { delay_ms: RETRY_DELAY_MS, error }
        },
    }
}

/// What to do after a reset: one that found nothing is tried once more, since
/// the device may just be coming back.
pub open spec fn reset_step(first: bool, reply: Result<(), UsbError>) -> ResetStep {
    match reply {
        Ok(_) => ResetStep::Done,
        Err(error) => if first && error == UsbError::NotFound {
            ResetStep::RetryAfter { delay_ms: RETRY_DELAY_MS }
        } else {
            ResetStep::Fail { error }
        },
    }
}

/// What comes once a number of interfaces are claimed: the next one, or the
/// reset.
pub open spec fn claim_step(
    endpoint_address: u8,
    interfaces: Seq<InterfaceModel>,
    claimed: nat,
) -> (DeviceModel, InitAction) {
    if claimed < interfaces.len() {
        (
            DeviceModel {
                endpoint_address,
                stage: StageModel::Claiming { interfaces, claimed },
            },
            InitAction::ClaimInterface { number: interfaces[claimed as int].interface_number },
        )
    } else {
        (DeviceModel { endpoint_address, stage: StageModel::Resetting }, InitAction::Reset)
    }
}

/// What comes after a reset that belongs to the initialization.
pub open spec fn init_reset_step(endpoint_address: u8, step: ResetStep) -> (DeviceModel, InitAction) {
    match step {
        ResetStep::Done => (idle(endpoint_address), InitAction::Succeed),
        ResetStep::RetryAfter { delay_ms } => (
            DeviceModel { endpoint_address, stage: StageModel::ResettingAgain },
            InitAction::ResetAfter { delay_ms },
        ),
        ResetStep::Fail { error } => (idle(endpoint_address), InitAction::Fail { error }),
    }
}

/// What comes of a reply: how far the initialization then is, and what to do.
/// The first request that fails ends it.
pub open spec fn init_step(device: DeviceModel, reply: ReplyModel) -> (DeviceModel, InitAction) {
    let endpoint_address = device.endpoint_address;
    match reply {
        ReplyModel::DeviceDescriptor(Ok(count)) => (
            DeviceModel { endpoint_address, stage: StageModel::Configuring },
            InitAction::ReadConfigurations { count },
        ),
        ReplyModel::DeviceDescriptor(Err(error)) => (
            idle(endpoint_address),
            InitAction::Fail { error },
        ),
        ReplyModel::Configurations(configurations) => claim_step(
            endpoint_address,
            hid_interfaces(configurations),
            0,
        ),
        ReplyModel::Outcome(outcome) => match (device.stage, outcome) {
            (StageModel::Resetting, _) => init_reset_step(
                endpoint_address,
                reset_step(true, outcome),
            ),
            (StageModel::ResettingAgain, _) => init_reset_step(
                endpoint_address,
                reset_step(false, outcome),
            ),
            (_, Err(error)) => (idle(endpoint_address), InitAction::Fail { error }),
            (StageModel::Claiming { interfaces, claimed }, Ok(_)) => claim_step(
                report_endpoint(interfaces[claimed as int].endpoints, endpoint_address),
                interfaces,
                claimed + 1,
            ),
            (_, Ok(_)) => (
                DeviceModel { endpoint_address, stage: StageModel::Describing },
                InitAction::ReadDeviceDescriptor,
            ),
        },
    }
}

/// What to do once some of the transfers that set reports are made, given the
/// reply to the last: the next transfer, unless this one failed or there is no
/// other.
pub open spec fn report_step(
    transfers: usize,
    made: usize,
    last: Result<(), UsbError>,
) -> ReportStep {
    match last {
        Ok(_) => if made < transfers {
            ReportStep::Write { place: made }
        } else {
            ReportStep::Done
        },
        Err(error) => ReportStep::Fail { error },
    }
}

/// The bytes of the report that turns the full reporting mode on.
pub open spec fn full_mode_report() -> Seq<u8> {
    seq![0x08u8, 0x03, 0x00, 0xff, 0xf0, 0x00, 0xff, 0xf0]
}

impl ControlTransfer {
    /// Whether this is the transfer that sets a report.
    pub open spec fn sets_report(self, report: Seq<u8>) -> bool {
        &&& self.request_type == SET_REPORT_REQUEST_TYPE
        &&& self.request == SET_REPORT_REQUEST
        &&& self.value == SET_REPORT_VALUE
        &&& self.index == SET_REPORT_INTERFACE
        &&& self.data@ == report
        &&& self.timeout_ms == CONTROL_TIMEOUT_MS
    }
}

/// Whether a device that was looked at is the one that is looked for. One whose
/// descriptor could not be read is not.
pub open spec fn is_target(vid: u16, pid: u16, ids: Result<DeviceIds, UsbError>) -> bool {
    ids == Ok::<DeviceIds, UsbError>(DeviceIds { vendor_id: vid, product_id: pid })
}

impl PhysicalDevice {
    /// Decides what follows an attempt to open the tablet, given its number and
    /// whether the tablet was found and opened. A failed attempt is repeated
    /// after a while, a bounded number of times.
    pub fn new(attempt: u32, reply: Result<(), UsbError>) -> (step: OpenStep)
        requires
            1 <= attempt <= OPEN_RETRIES,
        ensures
            step@ == open_step(attempt, reply),
    {
        match reply {
            Ok(_) => OpenStep::Opened(
                PhysicalDevice { endpoint_address: 0, stage: InitStage::Idle },
            ),
            Err(error) => {
                if attempt < OPEN_RETRIES {
                    OpenStep::Retry { delay_ms: RETRY_DELAY_MS, attempt: attempt + 1 }
                } else {
                    OpenStep::GiveUp { delay_ms: RETRY_DELAY_MS, error }
                }
            },
        }
    }

    /// Whether a device that was looked at is the one that is looked for.
    pub fn is_target_device(vid: u16, pid: u16, ids: Result<DeviceIds, UsbError>) -> (found: bool)
        ensures
            found == is_target(vid, pid, ids),
    {
        match ids {
            Ok(ids) => ids.vendor_id == vid && ids.product_id == pid,
            Err(_) => false,
        }
    }

    /// Picks the first device that is the one that is looked for, by its place
    /// in the list.
    pub fn get_target_device(
        vid: u16,
        pid: u16,
        devices: &Vec<Result<DeviceIds, UsbError>>,
    ) -> (place: Result<usize, UsbError>)
        ensures
            match place {
                Ok(place) => {
                    &&& place < devices@.len()
                    &&& is_target(vid, pid, devices@[place as int])
                    &&& forall|i: int| 0 <= i < place ==> !is_target(vid, pid, devices@[i])
                },
                Err(error) => {
                    &&& error == UsbError::NoDevice
                    &&& forall|i: int|
                        0 <= i < devices@.len() ==> !is_target(vid, pid, devices@[i])
                },
            },
            forall|i: int|
                0 <= i < devices@.len() && is_target(vid, pid, #[trigger] devices@[i]) ==> place
                    is Ok && place->Ok_0 <= i,
    {
        for i in 0..devices.len()
            invariant
                forall|j: int| 0 <= j < i ==> !is_target(vid, pid, devices@[j]),
        {
            if Self::is_target_device(vid, pid, devices[i]) {
                return Ok(i);
            }
        }
        Err(UsbError::NoDevice)
    }

    /// The address of the endpoint that reports are read from.
    pub fn endpoint_address(&self) -> (address: u8)
        ensures
            address == self@.endpoint_address,
    {
        self.endpoint_address
    }

    /// Starts the initialization.
    pub fn init(&mut self) -> (action: InitAction)
        ensures
            final(self)@ == (DeviceModel { stage: StageModel::Detaching, ..old(self)@ }),
            action == InitAction::EnableAutoDetach,
    {
        self.stage = InitStage::Detaching;
        InitAction::EnableAutoDetach
    }

    /// Ends the initialization with an error.
    fn fail(&mut self, error: UsbError) -> (action: InitAction)
        ensures
            final(self)@ == idle(old(self)@.endpoint_address),
            action == (InitAction::Fail { error }),
    {
        self.stage = InitStage::Idle;
        InitAction::Fail { error }
    }

    /// Goes on to the next interface, or to the reset.
    fn claim_next(&mut self, interfaces: Vec<InterfaceDescriptor>, claimed: usize) -> (action:
        InitAction)
        ensures
            (final(self)@, action) == claim_step(
                old(self)@.endpoint_address,
                interface_models(interfaces@),
                claimed as nat,
            ),
    {
        if claimed < interfaces.len() {
            let number = interfaces[claimed].interface_number;
            self.stage = InitStage::Claiming { interfaces, claimed };
            InitAction::ClaimInterface { number }
        } else {
            self.stage = InitStage::Resetting;
            InitAction::Reset
        }
    }

    /// Notes the endpoint of a claimed interface that sends reports, if it has
    /// one; of several, the last.
    fn note_endpoints(&mut self, endpoints: &Vec<EndpointDescriptor>)
        ensures
            final(self)@ == (DeviceModel {
                endpoint_address: report_endpoint(endpoints@, old(self)@.endpoint_address),
                ..old(self)@
            }),
    {
        let ghost before = self@;
        for i in 0..endpoints.len()
            invariant
                before == old(self)@,
                self@ == (DeviceModel {
                    endpoint_address: report_endpoint(
                        endpoints@.take(i as int),
                        before.endpoint_address,
                    ),
                    ..before
                }),
        {
            proof {
                assert(endpoints@.take(i + 1).drop_last() =~= endpoints@.take(i as int));
            }
            let endpoint = endpoints[i];
            if endpoint.direction == Direction::In && endpoint.transfer_type
                == TransferType::Interrupt && endpoint.max_packet_size == REPORT_PACKET_SIZE {
                self.endpoint_address = endpoint.address;
            }
        }
        assert(endpoints@.take(endpoints@.len() as int) =~= endpoints@);
    }

    /// Goes on after a reset that belongs to the initialization.
    fn init_reset(&mut self, step: ResetStep) -> (action: InitAction)
        ensures
            (final(self)@, action) == init_reset_step(old(self)@.endpoint_address, step),
    {
        match step {
            ResetStep::Done => {
                self.stage = InitStage::Idle;
                InitAction::Succeed
            },
            ResetStep::RetryAfter { delay_ms } => {
                self.stage = InitStage::ResettingAgain;
                InitAction::ResetAfter { delay_ms }
            },
            ResetStep::Fail { error } => self.fail(error),
        }
    }

    /// Goes on with the initialization once a reply has come.
    pub fn init_reply(&mut self, reply: InitReply) -> (action: InitAction)
        requires
            reply_fits(old(self)@.stage, reply@),
        ensures
            (final(self)@, action) == init_step(old(self)@, reply@),
    {
        let mut stage = InitStage::Idle;
        std::mem::swap(&mut stage, &mut self.stage);
        match reply {
            InitReply::DeviceDescriptor(Ok(count)) => {
                self.stage = InitStage::Configuring;
                InitAction::ReadConfigurations { count }
            },
            InitReply::DeviceDescriptor(Err(error)) => self.fail(error),
            InitReply::Configurations(replies) => {
                let configurations = get_configurations(replies);
                self.claim_next(get_hid_interface_descriptors(&configurations), 0)
            },
            InitReply::Outcome(outcome) => match stage {
                InitStage::Resetting => self.init_reset(Self::reset(true, outcome)),
                InitStage::ResettingAgain => self.init_reset(Self::reset(false, outcome)),
                InitStage::Claiming { interfaces, claimed } => match outcome {
                    Ok(_) => {
                        assert(claimed < interfaces.len());
                        self.note_endpoints(&interfaces[claimed].endpoints);
                        self.claim_next(interfaces, claimed + 1)
                    },
                    Err(error) => self.fail(error),
                },
                _ => match outcome {
                    Ok(_) => {
                        self.stage = InitStage::Describing;
                        InitAction::ReadDeviceDescriptor
                    },
                    Err(error) => self.fail(error),
                },
            },
        }
    }

    /// Decides what follows a reset of the tablet: one that found nothing is
    /// tried once more.
    pub fn reset(first: bool, reply: Result<(), UsbError>) -> (step: ResetStep)
        ensures
            step == reset_step(first, reply),
    {
        match reply {
            Ok(_) => ResetStep::Done,
            Err(UsbError::NotFound) if first => ResetStep::RetryAfter { delay_ms: RETRY_DELAY_MS },
            Err(error) => ResetStep::Fail { error },
        }
    }

    /// The request that reads a report.
    pub fn read_device_responses(&self) -> (request: ReadRequest)
        ensures
            request == (ReadRequest {
                endpoint: self@.endpoint_address,
                timeout_ms: READ_TIMEOUT_MS,
            }),
    {
        ReadRequest { endpoint: self.endpoint_address, timeout_ms: READ_TIMEOUT_MS }
    }

    /// The transfers that set reports, in order.
    pub fn set_report(reports: Vec<Vec<u8>>) -> (transfers: Vec<ControlTransfer>)
        ensures
            transfers@.len() == reports@.len(),
            forall|i: int|
                0 <= i < reports@.len() ==> (#[trigger] transfers@[i]).sets_report(reports@[i]@),
    {
        let ghost all = reports@;
        let mut transfers: Vec<ControlTransfer> = Vec::new();
        for report in it: reports
            invariant
                it.seq() == all,
                transfers@.len() == it.index(),
                forall|i: int|
                    0 <= i < it.index() ==> (#[trigger] transfers@[i]).sets_report(all[i]@),
        {
            transfers.push(
                ControlTransfer {
                    request_type: SET_REPORT_REQUEST_TYPE,
                    request: SET_REPORT_REQUEST,
                    value: SET_REPORT_VALUE,
                    index: SET_REPORT_INTERFACE,
                    data: report,
                    timeout_ms: CONTROL_TIMEOUT_MS,
                },
            );
        }
        transfers
    }

    /// Decides how setting reports goes on, once some of the transfers are made,
    /// given the reply to the last; before the first there is nothing to fail.
    pub fn set_report_reply(transfers: usize, made: usize, last: Result<(), UsbError>) -> (step:
        ReportStep)
        ensures
            step == report_step(transfers, made, last),
    {
        match last {
            Ok(_) => {
                if made < transfers {
                    ReportStep::Write { place: made }
                } else {
                    ReportStep::Done
                }
            },
            Err(error) => ReportStep::Fail { error },
        }
    }

    /// The transfers that put the tablet into its full reporting mode.
    pub fn set_full_mode() -> (transfers: Vec<ControlTransfer>)
        ensures
            transfers@.len() == 1,
            transfers@[0].sets_report(full_mode_report()),
    {
        let report: Vec<u8> = vec![0x08, 0x03, 0x00, 0xff, 0xf0, 0x00, 0xff, 0xf0];
        assert(report@ =~= full_mode_report());
        let mut reports: Vec<Vec<u8>> = Vec::new();
        reports.push(report);
        Self::set_report(reports)
    }
}

/// What follows a series of attempts to open the tablet, from the one with the
/// given number on, each with its reply: what the last of them leads to. An
/// attempt that succeeds or is given up ends the series.
pub open spec fn open_run(attempt: u32, replies: Seq<Result<(), UsbError>>) -> OpenModel
    decreases replies.len(),
{
    let step = open_step(attempt, replies[0]);
    if replies.len() <= 1 {
        step
    } else {
        match step {
            OpenModel::Retry { attempt, .. } => open_run(attempt, replies.drop_first()),
            _ => step,
        }
    }
}

/// The first success among the attempts opens the tablet, whatever failed
/// before it.
pub proof fn law_first_success_opens(
    attempt: u32,
    replies: Seq<Result<(), UsbError>>,
    success: int,
)
    requires
        1 <= attempt,
        0 <= success < replies.len(),
        attempt + success <= OPEN_RETRIES,
        forall|i: int| 0 <= i < success ==> replies[i] is Err,
        replies[success] is Ok,
    ensures
        open_run(attempt, replies) == OpenModel::Opened(idle(0)),
    decreases success,
{
    if success > 0 {
        assert(replies[0] is Err);
        law_first_success_opens((attempt + 1) as u32, replies.drop_first(), success - 1);
    }
}

/// If every attempt fails, the error of the last one is reported, and there is
/// no further attempt.
pub proof fn law_opening_is_given_up(attempt: u32, replies: Seq<Result<(), UsbError>>)
    requires
        1 <= attempt <= OPEN_RETRIES,
        replies.len() > OPEN_RETRIES - attempt,
        forall|i: int| 0 <= i <= OPEN_RETRIES - attempt ==> replies[i] is Err,
    ensures
        open_run(attempt, replies) == (OpenModel::GiveUp {
            delay_ms: RETRY_DELAY_MS,
            error: replies[OPEN_RETRIES - attempt]->Err_0,
        }),
    decreases OPEN_RETRIES - attempt,
{
    assert(replies[0] is Err);
    if attempt < OPEN_RETRIES {
        assert forall|i: int| 0 <= i <= OPEN_RETRIES - (attempt + 1) implies (
        #[trigger] replies.drop_first()[i]) is Err by {
            assert(replies[i + 1] is Err);
        }
        law_opening_is_given_up((attempt + 1) as u32, replies.drop_first());
    }
}

/// Where setting reports gets to, once some of the transfers are made and the
/// last has had its reply, if each further transfer gets the next of the replies.
pub open spec fn report_run(
    transfers: usize,
    made: usize,
    last: Result<(), UsbError>,
    replies: Seq<Result<(), UsbError>>,
) -> ReportStep
    decreases replies.len(),
{
    let step = report_step(transfers, made, last);
    if replies.len() > 0 && step is Write {
        report_run(transfers, (made + 1) as usize, replies[0], replies.drop_first())
    } else {
        step
    }
}

/// The reports are set exactly where every transfer works; otherwise the error
/// of the first one that does not is reported.
pub proof fn law_reports_are_set_until_a_failure(
    transfers: usize,
    made: usize,
    replies: Seq<Result<(), UsbError>>,
)
    requires
        made + replies.len() == transfers,
    ensures
        (forall|i: int| 0 <= i < replies.len() ==> replies[i] is Ok) ==> report_run(
            transfers,
            made,
            Ok(()),
            replies,
        ) == ReportStep::Done,
        forall|k: int|
            0 <= k < replies.len() && (#[trigger] replies[k]) is Err && (forall|i: int|
                0 <= i < k ==> replies[i] is Ok) ==> report_run(transfers, made, Ok(()), replies)
                == (ReportStep::Fail { error: replies[k]->Err_0 }),
    decreases replies.len(),
{
    reveal_with_fuel(report_run, 2);
    if replies.len() > 0 && replies[0] is Ok {
        let rest = replies.drop_first();
        assert(replies[0]->Ok_0 == ());
        law_reports_are_set_until_a_failure(transfers, (made + 1) as usize, rest);
        assert forall|k: int|
            0 <= k < replies.len() && (#[trigger] replies[k]) is Err && (forall|i: int|
                0 <= i < k ==> replies[i] is Ok) implies report_run(
            transfers,
            made,
            Ok(()),
            replies,
        ) == (ReportStep::Fail { error: replies[k]->Err_0 }) by {
            assert(rest[k - 1] == replies[k]);
            assert(forall|i: int| 0 <= i < k - 1 ==> rest[i] == replies[i + 1]);
        }
    }
}

/// How the initialization stands once the configurations are known and a number
/// of claims after that have worked.
pub open spec fn after_claims(
    device: DeviceModel,
    configurations: Seq<Seq<Seq<InterfaceModel>>>,
    claims: nat,
) -> (DeviceModel, InitAction)
    decreases claims,
{
    if claims == 0 {
        init_step(device, ReplyModel::Configurations(configurations))
    } else {
        init_step(
            after_claims(device, configurations, (claims - 1) as nat).0,
            ReplyModel::Outcome(Ok(())),
        )
    }
}

/// The interfaces that are claimed are those of human interface devices, in
/// their order, and then comes the reset. On the way, reports come to be read
/// from the last endpoint of the claimed interfaces that sends them.
pub proof fn law_init_claims_the_hid_interfaces(
    device: DeviceModel,
    configurations: Seq<Seq<Seq<InterfaceModel>>>,
    claims: nat,
)
    requires
        claims <= hid_interfaces(configurations).len(),
    ensures
        ({
            let interfaces = hid_interfaces(configurations);
            let (now, action) = after_claims(device, configurations, claims);
            &&& now.endpoint_address == report_endpoint_of(
                interfaces.take(claims as int),
                device.endpoint_address,
            )
            &&& if claims < interfaces.len() {
                action == (InitAction::ClaimInterface {
                    number: interfaces[claims as int].interface_number,
                })
            } else {
                action == InitAction::Reset
            }
        }),
    decreases claims,
{
    lemma_after_claims(device, configurations, claims);
}

/// The stage that goes with a number of claims.
proof fn lemma_after_claims(
    device: DeviceModel,
    configurations: Seq<Seq<Seq<InterfaceModel>>>,
    claims: nat,
)
    requires
        claims <= hid_interfaces(configurations).len(),
    ensures
        after_claims(device, configurations, claims) == claim_step(
            report_endpoint_of(
                hid_interfaces(configurations).take(claims as int),
                device.endpoint_address,
            ),
            hid_interfaces(configurations),
            claims,
        ),
    decreases claims,
{
    let interfaces = hid_interfaces(configurations);
    if claims > 0 {
        lemma_after_claims(device, configurations, (claims - 1) as nat);
        assert(interfaces.take(claims as int).drop_last() =~= interfaces.take(claims - 1));
    }
}

/// The endpoint that reports are read from is one of the claimed interfaces'
/// that sends them, or the one from before if none of them has any.
pub proof fn law_report_endpoint_is_one_that_sends_reports(
    endpoints: Seq<EndpointDescriptor>,
    so_far: u8,
)
    ensures
        (exists|i: int|
            0 <= i < endpoints.len() && is_report_endpoint(#[trigger] endpoints[i])
                && report_endpoint(endpoints, so_far) == endpoints[i].address && forall|j: int|
                i < j < endpoints.len() ==> !is_report_endpoint(#[trigger] endpoints[j])) || (
        report_endpoint(endpoints, so_far) == so_far && forall|j: int|
            0 <= j < endpoints.len() ==> !is_report_endpoint(#[trigger] endpoints[j])),
    decreases endpoints.len(),
{
    if endpoints.len() > 0 {
        let last = endpoints.len() - 1;
        if is_report_endpoint(endpoints.last()) {
            assert(is_report_endpoint(endpoints[last]));
        } else {
            let rest = endpoints.drop_last();
            law_report_endpoint_is_one_that_sends_reports(rest, so_far);
            if exists|i: int|
                0 <= i < rest.len() && is_report_endpoint(#[trigger] rest[i]) && report_endpoint(
                    rest,
                    so_far,
                ) == rest[i].address && forall|j: int|
                    i < j < rest.len() ==> !is_report_endpoint(#[trigger] rest[j]) {
                let i = choose|i: int|
                    0 <= i < rest.len() && is_report_endpoint(#[trigger] rest[i])
                        && report_endpoint(rest, so_far) == rest[i].address && forall|j: int|
                        i < j < rest.len() ==> !is_report_endpoint(#[trigger] rest[j]);
                assert(is_report_endpoint(endpoints[i]));
                assert forall|j: int| i < j < endpoints.len() implies !is_report_endpoint(
                    #[trigger] endpoints[j],
                ) by {
                    if j < last {
                        assert(rest[j] == endpoints[j]);
                    }
                }
            } else {
                assert forall|j: int| 0 <= j < endpoints.len() implies !is_report_endpoint(
                    #[trigger] endpoints[j],
                ) by {
                    if j < last {
                        assert(rest[j] == endpoints[j]);
                    }
                }
            }
        }
    }
}

/// Each action says which kind of reply is then waited for, and once the
/// initialization has ended none is.
pub proof fn law_actions_ask_for_the_fitting_reply(
    device: DeviceModel,
    reply: ReplyModel,
    next: ReplyModel,
)
    requires
        reply_fits(device.stage, reply),
    ensures
        ({
            let (now, action) = init_step(device, reply);
            reply_fits(now.stage, next) <==> match action {
                InitAction::ReadDeviceDescriptor => next is DeviceDescriptor,
                InitAction::ReadConfigurations { .. } => next is Configurations,
                InitAction::Succeed | InitAction::Fail { .. } => false,
                _ => next is Outcome,
            }
        }),
{
}

/// Whatever is waited for, a failed request ends the initialization with its
/// error, and the endpoint stays as it was. Only a first reset that found
/// nothing is no such failure.
pub proof fn law_init_reports_the_first_failure(device: DeviceModel, error: UsbError)
    requires
        !(device.stage is Idle),
        device.stage is Resetting ==> error != UsbError::NotFound,
    ensures
        device.stage is Describing ==> init_step(
            device,
            ReplyModel::DeviceDescriptor(Err(error)),
        ) == (idle(device.endpoint_address), InitAction::Fail { error }),
        !(device.stage is Describing) && !(device.stage is Configuring) ==> init_step(
            device,
            ReplyModel::Outcome(Err(error)),
        ) == (idle(device.endpoint_address), InitAction::Fail { error }),
{
}

/// A reset that found nothing is tried again, and only once: the second reply
/// decides.
pub proof fn law_reset_is_retried_once(reply: Result<(), UsbError>)
    ensures
        reset_step(true, Err(UsbError::NotFound)) == (ResetStep::RetryAfter {
            delay_ms: RETRY_DELAY_MS,
        }),
        !(reset_step(false, reply) is RetryAfter),
        reset_step(false, reply) is Done <==> reply is Ok,
{
}

/// The tablet is opened in at most ten attempts, half a second apart; the last
/// error is reported, after as long a pause. A tablet that is open has not been
/// initialized, and no endpoint of it is known.
pub proof fn law_ten_attempts_half_a_second_apart(attempt: u32, error: UsbError)
    requires
        1 <= attempt <= 10,
    ensures
        open_step(attempt, Ok(())) matches OpenModel::Opened(device) && device.endpoint_address == 0
            && device.stage is Idle,
        attempt < 10 ==> (open_step(attempt, Err(error)) matches OpenModel::Retry {
            delay_ms,
            attempt: next,
        } && delay_ms == 500 && next == attempt + 1),
        attempt == 10 ==> (open_step(attempt, Err(error)) matches OpenModel::GiveUp {
            delay_ms,
            error: last,
        } && delay_ms == 500 && last == error),
        OPEN_RETRIES == 10,
{
}

/// A reset that works is done; a first one that finds no device is repeated after
/// half a second; any other failure is reported.
pub proof fn law_only_a_lost_device_is_reset_again(first: bool, error: UsbError)
    ensures
        reset_step(first, Ok(())) == ResetStep::Done,
        first && error == UsbError::NotFound ==> reset_step(first, Err(error)) == (
        ResetStep::RetryAfter { delay_ms: 500 }),
        !first || error != UsbError::NotFound ==> reset_step(first, Err(error)) == (
        ResetStep::Fail { error }),
{
}

/// The reports are written one after the other, each once, until there is none
/// left; the first failure is reported.
pub proof fn law_reports_are_written_one_after_the_other(
    transfers: usize,
    made: usize,
    error: UsbError,
)
    ensures
        made < transfers ==> report_step(transfers, made, Ok(())) == (ReportStep::Write {
            place: made,
        }),
        made >= transfers ==> report_step(transfers, made, Ok(())) == ReportStep::Done,
        report_step(transfers, made, Err(error)) == (ReportStep::Fail { error }),
{
}

/// A report goes to interface 2 as feature report 8, by the class request 9 from
/// the host, within a quarter of a second, with just its bytes.
pub proof fn law_report_goes_to_its_interface(transfer: ControlTransfer, report: Seq<u8>)
    ensures
        transfer.sets_report(report) <==> {
            &&& transfer.request_type == 0x21
            &&& transfer.request == 9
            &&& transfer.value == 3 * 256 + 8
            &&& transfer.index == 2
            &&& transfer.data@ == report
            &&& transfer.timeout_ms == 250
        },
{
}

/// The full reporting mode takes one report, of these eight bytes.
pub proof fn law_full_mode_is_one_report(transfers: Vec<ControlTransfer>)
    requires
        call_ensures(PhysicalDevice::set_full_mode, (), transfers),
    ensures
        transfers@.len() == 1,
        transfers@[0].data@ == seq![8u8, 3, 0, 255, 240, 0, 255, 240],
        transfers@[0].request_type == 0x21,
        transfers@[0].request == 9,
        transfers@[0].value == 0x0308,
        transfers@[0].index == 2,
        transfers@[0].timeout_ms == 250,
{
}

/// A report is read from the tablet's endpoint, for up to three seconds.
pub proof fn law_reads_wait_three_seconds(device: PhysicalDevice, request: ReadRequest)
    requires
        call_ensures(PhysicalDevice::read_device_responses, (&device,), request),
    ensures
        request.endpoint == device@.endpoint_address,
        request.timeout_ms == 3000,
{
}

/// The tablet is known by its vendor and its product, both, and by nothing else.
pub proof fn law_tablet_is_known_by_both_ids(
    vid: u16,
    pid: u16,
    ids: DeviceIds,
    error: UsbError,
)
    ensures
        is_target(vid, pid, Ok(ids)) <==> ids.vendor_id == vid && ids.product_id == pid,
        !is_target(vid, pid, Err(error)),
{
}

/// Steps and replies stand for themselves; of the configurations those that could
/// be read are kept.
pub proof fn law_replies_stand_for_themselves(
    outcome: Result<(), UsbError>,
    count: Result<u8, UsbError>,
    configurations: Vec<Result<Configuration, UsbError>>,
    delay_ms: u64,
    attempt: u32,
    error: UsbError,
    device: PhysicalDevice,
)
    ensures
        InitReply::Outcome(outcome)@ == ReplyModel::Outcome(outcome),
        InitReply::DeviceDescriptor(count)@ == ReplyModel::DeviceDescriptor(count),
        InitReply::Configurations(configurations)@ == ReplyModel::Configurations(
            configurations_in(configurations@),
        ),
        (OpenStep::Retry { delay_ms, attempt })@ == (OpenModel::Retry { delay_ms, attempt }),
        (OpenStep::GiveUp { delay_ms, error })@ == (OpenModel::GiveUp { delay_ms, error }),
        OpenStep::Opened(device)@ == OpenModel::Opened(device@),
{
}

/// How the initialization goes while all goes well: kernel drivers are detached,
/// the descriptor is read, as many configurations as it says are read, then the
/// interfaces that were found are claimed one after the other, and the tablet is
/// reset. Each claim brings in the endpoints of the interface that it claimed,
/// and nothing else touches the endpoint.
pub proof fn law_init_takes_its_steps_in_order(
    device: DeviceModel,
    count: u8,
    configurations: Seq<Seq<Seq<InterfaceModel>>>,
    interfaces: Seq<InterfaceModel>,
    claimed: nat,
)
    ensures
        ({
            let (next, action) = init_step(
                DeviceModel { stage: StageModel::Detaching, ..device },
                ReplyModel::Outcome(Ok(())),
            );
            &&& action == InitAction::ReadDeviceDescriptor
            &&& next.stage is Describing
            &&& next.endpoint_address == device.endpoint_address
        }),
        ({
            let (next, action) = init_step(
                DeviceModel { stage: StageModel::Describing, ..device },
                ReplyModel::DeviceDescriptor(Ok(count)),
            );
            &&& action == (InitAction::ReadConfigurations { count })
            &&& next.stage is Configuring
            &&& next.endpoint_address == device.endpoint_address
        }),
        ({
            let found = hid_interfaces(configurations);
            let (next, action) = init_step(
                DeviceModel { stage: StageModel::Configuring, ..device },
                ReplyModel::Configurations(configurations),
            );
            &&& next.endpoint_address == device.endpoint_address
            &&& found.len() == 0 ==> action == InitAction::Reset && next.stage is Resetting
            &&& found.len() > 0 ==> action == (InitAction::ClaimInterface {
                number: found[0].interface_number,
            }) && next.stage == (StageModel::Claiming { interfaces: found, claimed: 0 })
        }),
        claimed < interfaces.len() ==> ({
            let (next, action) = init_step(
                DeviceModel { stage: StageModel::Claiming { interfaces, claimed }, ..device },
                ReplyModel::Outcome(Ok(())),
            );
            &&& next.endpoint_address == report_endpoint(
                interfaces[claimed as int].endpoints,
                device.endpoint_address,
            )
            &&& claimed + 1 == interfaces.len() ==> action == InitAction::Reset
                && next.stage is Resetting
            &&& claimed + 1 < interfaces.len() ==> action == (InitAction::ClaimInterface {
                number: interfaces[(claimed + 1) as int].interface_number,
            }) && next.stage == (StageModel::Claiming { interfaces, claimed: claimed + 1 })
        }),
{
}

/// How the initialization ends: with a reset that worked, or with the first
/// failure. Only a first reset that found no device is repeated, once, after half
/// a second. The endpoint stays as it was.
pub proof fn law_init_ends_with_a_reset_or_a_failure(device: DeviceModel, error: UsbError)
    ensures
        ({
            let first = DeviceModel { stage: StageModel::Resetting, ..device };
            let second = DeviceModel { stage: StageModel::ResettingAgain, ..device };
            let idle = DeviceModel { stage: StageModel::Idle, ..device };
            let done = (idle, InitAction::Succeed);
            let failed = (idle, InitAction::Fail { error });
            &&& init_step(first, ReplyModel::Outcome(Ok(()))) == done
            &&& init_step(second, ReplyModel::Outcome(Ok(()))) == done
            &&& init_step(second, ReplyModel::Outcome(Err(error))) == failed
            &&& error != UsbError::NotFound ==> init_step(first, ReplyModel::Outcome(Err(error)))
                == failed
            &&& error == UsbError::NotFound ==> init_step(first, ReplyModel::Outcome(Err(error)))
                == (second, InitAction::ResetAfter { delay_ms: 500 })
            &&& device.stage is Detaching || device.stage is Claiming ==> init_step(
                device,
                ReplyModel::Outcome(Err(error)),
            ) == failed
            &&& init_step(
                DeviceModel { stage: StageModel::Describing, ..device },
                ReplyModel::DeviceDescriptor(Err(error)),
            ) == failed
        }),
{
}

/// A device that is found has the right ids, and none before it has.
pub proof fn law_found_device_is_the_first_fitting(
    vid: u16,
    pid: u16,
    devices: Vec<Result<DeviceIds, UsbError>>,
    place: usize,
    i: int,
)
    requires
        call_ensures(
            PhysicalDevice::get_target_device,
            (vid, pid, &devices),
            Ok::<usize, UsbError>(place),
        ),
        0 <= i < devices@.len(),
    ensures
        place < devices@.len(),
        devices@[place as int] matches Ok(ids) && ids.vendor_id == vid && ids.product_id == pid,
        (devices@[i] matches Ok(ids) && ids.vendor_id == vid && ids.product_id == pid) ==> place
            <= i,
{
    if i < place {
        assert(!is_target(vid, pid, devices@[i]));
    }
}

/// Where no device has the right ids, none is found.
pub proof fn law_no_other_device_is_found(
    vid: u16,
    pid: u16,
    devices: Vec<Result<DeviceIds, UsbError>>,
    place: Result<usize, UsbError>,
)
    requires
        call_ensures(PhysicalDevice::get_target_device, (vid, pid, &devices), place),
        forall|i: int|
            0 <= i < devices@.len() ==> (#[trigger] devices@[i] matches Ok(ids) ==> ids.vendor_id
                != vid || ids.product_id != pid),
    ensures
        place == Err::<usize, UsbError>(UsbError::NoDevice),
{
}

/// The decisions that are made are those that are said of opening, resetting and
/// setting reports, and a device is known by its ids.
pub proof fn law_decisions_are_as_said(
    attempt: u32,
    first: bool,
    transfers: usize,
    made: usize,
    reply: Result<(), UsbError>,
    vid: u16,
    pid: u16,
    ids: Result<DeviceIds, UsbError>,
)
    ensures
        forall|step: OpenStep| #[trigger]
            call_ensures(PhysicalDevice::new, (attempt, reply), step) ==> step@ == open_step(
                attempt,
                reply,
            ),
        forall|step: ResetStep| #[trigger]
            call_ensures(PhysicalDevice::reset, (first, reply), step) ==> step == reset_step(
                first,
                reply,
            ),
        forall|step: ReportStep| #[trigger]
            call_ensures(PhysicalDevice::set_report_reply, (transfers, made, reply), step) ==> step
                == report_step(transfers, made, reply),
        forall|found: bool| #[trigger]
            call_ensures(PhysicalDevice::is_target_device, (vid, pid, ids), found) ==> (found <==> (
            ids matches Ok(ids) && ids.vendor_id == vid && ids.product_id == pid)),
{
}

/// The initialization starts with detaching the kernel's drivers, and goes on with
/// each reply as is said of it.
pub proof fn law_initialization_goes_as_said()
    ensures
        forall|device: &mut PhysicalDevice, action: InitAction| #[trigger]
            call_ensures(PhysicalDevice::init, (device,), action) ==> {
                &&& action == InitAction::EnableAutoDetach
                &&& final(device)@.stage is Detaching
                &&& final(device)@.endpoint_address == device@.endpoint_address
            },
        forall|device: &mut PhysicalDevice, reply: InitReply, action: InitAction| #[trigger]
            call_ensures(PhysicalDevice::init_reply, (device, reply), action) ==> (
            final(device)@,
            action,
        ) == init_step(device@, reply@),
{
}

/// Every report is written by a transfer of its own, in order.
pub proof fn law_each_report_has_its_transfer(
    reports: Vec<Vec<u8>>,
    transfers: Vec<ControlTransfer>,
    i: int,
)
    requires
        call_ensures(PhysicalDevice::set_report, (reports,), transfers),
        0 <= i < reports@.len(),
    ensures
        transfers@.len() == reports@.len(),
        transfers@[i].data@ == reports@[i]@,
        transfers@[i].request_type == 0x21,
        transfers@[i].request == 9,
        transfers@[i].value == 0x0308,
        transfers@[i].index == 2,
        transfers@[i].timeout_ms == 250,
{
    assert(transfers@[i].sets_report(reports@[i]@));
}

} // verus!
