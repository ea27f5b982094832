//! The rebootor's poll cycle as a state machine.
//!
//! The USB stack is driven from outside: each cycle the caller services the
//! bus, hands the device's connection state to [`Rebootor::poll`], performs
//! the bus actions that the returned [`PollStep`] names, and hands each
//! report it reads to [`Rebootor::on_report`], which decides whether to
//! reboot into the bootloader.
use vstd::prelude::*;

use crate::hid_descriptor::REPORT_LEN;

verus! {

/// The command that a host sends as an output report to request a reboot
/// into the bootloader: the ASCII bytes `reboot`, without terminator.
pub const REBOOT_COMMAND: [u8; 6] = [0x72, 0x65, 0x62, 0x6F, 0x6F, 0x74];

/// Connection state of the USB device, as the device layer reports it.
#[derive(Clone, Copy, Debug, PartialEq, Eq, Structural)]
pub enum UsbDeviceState {
    Default,
    Addressed,
    Configured,
    Suspend,
}

/// Outcome of one non-blocking read of a report from the HID class.
#[derive(Clone, Copy, Debug, PartialEq, Eq, Structural)]
pub enum ReadOutcome {
    /// This many bytes were written to the start of the buffer.
    Received(usize),
    /// No report was waiting.
    WouldBlock,
    /// Any other error of the class layer.
    Failed,
}

/// The bus work that one poll cycle asks of the caller.
#[derive(Clone, Copy, Debug, PartialEq, Eq, Structural)]
pub struct PollStep {
    /// Arm the endpoints: the device has just entered the configured state.
    pub configure: bool,
    /// Read the pending output report, then the pending SET_REPORT report,
    /// and hand each to [`Rebootor::on_report`].
    pub read_reports: bool,
}

/// What to do with a report that was read.
#[derive(Clone, Copy, Debug, PartialEq, Eq, Structural)]
pub enum ReportAction {
    /// Keep polling.
    Ignore,
    /// Enter the bootloader; there is no way back.
    RebootToBootloader,
}

/// The identity that the device presents to the host. A host flashing tool
/// recognises a bootloader-capable device by the vendor and product IDs.
pub struct DeviceIdentity {
    pub vendor_id: u16,
    pub product_id: u16,
    pub product: &'static str,
    pub manufacturer: &'static str,
    pub self_powered: bool,
    /// Maximum packet size of the control endpoint, where it is set.
    pub max_packet_size_0: Option<u8>,
    /// Polling interval of the HID endpoints in milliseconds.
    pub poll_interval_ms: u8,
}

impl DeviceIdentity {
    /// The identity of the rebootor device.
    pub fn rebootor() -> (r: Self)
        ensures
            r.vendor_id == 0x16C0,
            r.product_id == 0x0477,
            r.product@ == "Self-Rebootor"@,
            r.manufacturer@ == "PJRC"@,
            r.self_powered,
            r.max_packet_size_0 == Some(64u8),
            r.poll_interval_ms == 10,
    {
        DeviceIdentity {
            vendor_id: 0x16C0,
            product_id: 0x0477,
            product: "Self-Rebootor",
            manufacturer: "PJRC",
            self_powered: true,
            max_packet_size_0: Some(64),
            poll_interval_ms: 10,
        }
    }
}

/// Whether a read with outcome `outcome` into buffer `buf` delivered exactly
/// the reboot command.
pub open spec fn is_reboot_request(outcome: ReadOutcome, buf: Seq<u8>) -> bool {
    match outcome {
        ReadOutcome::Received(n) => n <= buf.len() && buf.take(n as int) == REBOOT_COMMAND@,
        _ => false,
    }
}

/// A report leads to the bootloader exactly when the device is configured
/// and the report is the reboot command.
pub open spec fn report_action(configured: bool, outcome: ReadOutcome, buf: Seq<u8>) -> ReportAction {
    if configured && is_reboot_request(outcome, buf) {
        ReportAction::RebootToBootloader
    } else {
        ReportAction::Ignore
    }
}

/// The bus work of a poll cycle that observes `state`, with the configured
/// flag `configured` from the cycle before.
pub open spec fn poll_step(configured: bool, state: UsbDeviceState) -> PollStep {
    PollStep {
        configure: state == UsbDeviceState::Configured && !configured,
        read_reports: state == UsbDeviceState::Configured,
    }
}

/// The rebootor device's poll logic. It remembers whether the device was
/// configured in the last cycle, so that the endpoints are armed once per
/// entry into the configured state.
pub struct Rebootor {
    configured: bool,
}

impl Rebootor {
    /// Whether the last poll cycle observed the configured state.
    pub closed spec fn is_configured(&self) -> bool {
        self.configured
    }

    /// A rebootor that has not yet seen the configured state.
    pub fn new() -> (r: Self)
        ensures
            !r.is_configured(),
    {
        Rebootor { configured: false }
    }

    /// Whether the last poll cycle observed the configured state.
    pub fn configured(&self) -> (r: bool)
        ensures
            r == self.is_configured(),
    {
        self.configured
    }

    /// One poll cycle, after the caller serviced the bus and read the
    /// device's connection state `state`. Returns the bus work to do.
    pub fn poll(&mut self, state: UsbDeviceState) -> (step: PollStep)
        ensures
            step == poll_step(old(self).is_configured(), state),
            final(self).is_configured() == (state == UsbDeviceState::Configured),
    {
        let is_configured = state == UsbDeviceState::Configured;
        let step = PollStep { configure: is_configured && !self.configured, read_reports: is_configured };
        self.configured = is_configured;
        step
    }

    /// Decides on a report that a read with outcome `outcome` left in `buf`.
    pub fn on_report(&self, outcome: ReadOutcome, buf: &[u8]) -> (r: ReportAction)
        ensures
            r == report_action(self.is_configured(), outcome, buf@),
    {
        if self.configured && reboot_requested(outcome, buf) {
            ReportAction::RebootToBootloader
        } else {
            ReportAction::Ignore
        }
    }
}

/// Whether the read with outcome `outcome` left exactly the reboot command
/// in `buf`. A fragment, a longer report or any other bytes do not match.
pub fn reboot_requested(outcome: ReadOutcome, buf: &[u8]) -> (r: bool)
    ensures
        r == is_reboot_request(outcome, buf@),
{
    match outcome {
        ReadOutcome::Received(n) => n <= buf.len() && prefix_is_command(buf, n),
        _ => false,
    }
}

fn prefix_is_command(buf: &[u8], n: usize) -> (r: bool)
    requires
        n <= buf@.len(),
    ensures
        r == (buf@.take(n as int) == REBOOT_COMMAND@),
{
    if n != REPORT_LEN {
        assert(buf@.take(n as int).len() != REBOOT_COMMAND@.len());
        return false;
    }
    let mut i: usize = 0;
    while i < n
        invariant
            i <= n,
            n == REPORT_LEN,
            n <= buf@.len(),
            forall|j: int| 0 <= j < i ==> buf@[j] == REBOOT_COMMAND@[j],
        decreases n - i,
    {
        if buf[i] != REBOOT_COMMAND[i] {
            assert(buf@.take(n as int)[i as int] != REBOOT_COMMAND@[i as int]);
            return false;
        }
        i = i + 1;
    }
    assert(buf@.take(n as int) =~= REBOOT_COMMAND@);
    true
}

/// No report other than the exact command reboots: for every report `b` of
/// at most `REPORT_LEN` bytes that is not the command, whatever follows it in
/// the buffer and whether or not the device is configured, the action is
/// `Ignore`.
pub proof fn lemma_only_the_command_reboots(configured: bool, b: Seq<u8>, rest: Seq<u8>)
    requires
        b.len() <= REPORT_LEN,
        b != REBOOT_COMMAND@,
    ensures
        report_action(configured, ReadOutcome::Received(b.len() as usize), b + rest)
            == ReportAction::Ignore,
{
    assert((b + rest).take(b.len() as int) =~= b);
}

/// Once a poll cycle has observed the configured state, from whatever state
/// before, it asks for the reports to be read, and the command delivered as
/// a report leads to the bootloader.
pub proof fn lemma_command_reboots_when_configured(configured: bool)
    ensures
        poll_step(configured, UsbDeviceState::Configured).read_reports,
        report_action(true, ReadOutcome::Received(REPORT_LEN), REBOOT_COMMAND@)
            == ReportAction::RebootToBootloader,
{
    assert(REBOOT_COMMAND@.take(REPORT_LEN as int) =~= REBOOT_COMMAND@);
}

/// While the device is not configured nothing reboots: a cycle that observes
/// another state arms nothing and reads no report, and an unconfigured
/// device ignores every report, the command too. Once configured (the flag
/// that `poll` leaves after observing `Configured`), the same command
/// reboots.
pub proof fn lemma_no_reboot_unless_configured(
    configured: bool,
    state: UsbDeviceState,
    outcome: ReadOutcome,
    buf: Seq<u8>,
)
    requires
        state != UsbDeviceState::Configured,
    ensures
        !poll_step(configured, state).read_reports,
        !poll_step(configured, state).configure,
        report_action(false, outcome, buf) == ReportAction::Ignore,
        report_action(true, ReadOutcome::Received(REPORT_LEN), REBOOT_COMMAND@)
            == ReportAction::RebootToBootloader,
{
    assert(REBOOT_COMMAND@.take(REPORT_LEN as int) =~= REBOOT_COMMAND@);
}

/// Polls that find no report waiting, or a failed read, have no effect: a
/// cycle that observes the same state as the cycle before asks for no
/// configuration and keeps the flag, and such a read is ignored.
pub proof fn lemma_empty_polls_are_quiet(state: UsbDeviceState, configured: bool, buf: Seq<u8>)
    ensures
        !poll_step(state == UsbDeviceState::Configured, state).configure,
        report_action(configured, ReadOutcome::WouldBlock, buf) == ReportAction::Ignore,
        report_action(configured, ReadOutcome::Failed, buf) == ReportAction::Ignore,
{
}

/// Number of configuration side effects over poll cycles that observe the
/// states `states` in turn, starting with the configured flag `configured`.
pub open spec fn configure_effects(configured: bool, states: Seq<UsbDeviceState>) -> nat
    decreases states.len(),
{
    if states.len() == 0 {
        0
    } else {
        let step = poll_step(configured, states[0]);
        (if step.configure {
            1nat
        } else {
            0nat
        }) + configure_effects(states[0] == UsbDeviceState::Configured, states.drop_first())
    }
}

/// Whether the `i`-th observed state enters the configured state: it is
/// `Configured` and the state before it (`configured` for the first) is not.
pub open spec fn enters_configured(configured: bool, states: Seq<UsbDeviceState>, i: int) -> bool {
    &&& states[i] == UsbDeviceState::Configured
    &&& !(if i == 0 {
        configured
    } else {
        states[i - 1] == UsbDeviceState::Configured
    })
}

/// Number of entries into the configured state among the first `n` states.
pub open spec fn configured_entries(configured: bool, states: Seq<UsbDeviceState>, n: nat) -> nat
    decreases n,
{
    if n == 0 {
        0
    } else {
        configured_entries(configured, states, (n - 1) as nat) + (if enters_configured(
            configured,
            states,
            n - 1,
        ) {
            1nat
        } else {
            0nat
        })
    }
}

proof fn lemma_entries_drop_first(configured: bool, states: Seq<UsbDeviceState>, n: nat)
    requires
        n + 1 <= states.len(),
    ensures
        configured_entries(configured, states, n + 1) == (if enters_configured(
            configured,
            states,
            0,
        ) {
            1nat
        } else {
            0nat
        }) + configured_entries(
            states[0] == UsbDeviceState::Configured,
            states.drop_first(),
            n,
        ),
    decreases n,
{
    reveal_with_fuel(configured_entries, 2);
    if n > 0 {
        lemma_entries_drop_first(configured, states, (n - 1) as nat);
        assert(enters_configured(configured, states, n as int) == enters_configured(
            states[0] == UsbDeviceState::Configured,
            states.drop_first(),
            n - 1,
        ));
    }
}

/// The endpoints are armed exactly once per entry into the configured state,
/// not once per cycle that observes it: over any run of poll cycles the
/// number of configuration side effects equals the number of entries.
pub proof fn lemma_configure_once_per_entry(configured: bool, states: Seq<UsbDeviceState>)
    ensures
        configure_effects(configured, states) == configured_entries(
            configured,
            states,
            states.len(),
        ),
    decreases states.len(),
{
    if states.len() > 0 {
        lemma_configure_once_per_entry(
            states[0] == UsbDeviceState::Configured,
            states.drop_first(),
        );
        lemma_entries_drop_first(configured, states, (states.len() - 1) as nat);
    }
}

} // verus!
