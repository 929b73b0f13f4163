//! The flash self-test: reset the chip, switch it to quad mode, erase it,
//! write two patterns and read them back through the one-shot interface
//! and through execute-in-place (XIP) memory mapping.
//!
//! The program that owns the QSPI peripheral performs the [`FlashAction`]
//! that the current [`Stage`] asks for and hands back what came of it as a
//! [`FlashEvent`]; [`Stage::advance`] decides what happens next.

use vstd::prelude::*;
use crate::flash::{bit, Status2};

verus! {

/// Flash commands that are sent without data.
#[derive(Clone, Copy, Debug, PartialEq, Eq, Structural)]
pub enum FlashCommand {
    EnableReset,
    Reset,
    WriteEnable,
}

/// Progress messages for the on-screen log.
#[derive(Clone, Copy, Debug, PartialEq, Eq, Structural)]
pub enum Notice {
    /// "erasing chip, please wait..."
    Erasing,
    /// "DONE." and a line break
    Erased,
}

/// The labels of the four-byte values shown on the log.
#[derive(Clone, Copy, Debug, PartialEq, Eq, Structural)]
pub enum ReportKind {
    /// What address 0 holds after the erase.
    PostErase,
    /// What was written to address 0.
    WroteStart,
    /// What address 0 holds after the write.
    PostWrite,
    /// What was written to address 0x800.
    WroteXip,
    /// What the XIP window shows at offset 0x800.
    XipRead,
    /// What address 0x800 holds, read in one-shot mode after XIP.
    PostXip,
}

/// One step for the program to carry out.
#[derive(Clone, Copy, Debug, PartialEq, Eq)]
pub enum FlashAction {
    /// Wait this many milliseconds.
    Pause { ms: u8 },
    /// Poll the status registers until the chip is ready (see `flash::ReadyWait`).
    AwaitReady,
    /// Send a command without data.
    Run { command: FlashCommand },
    /// Divide the QSPI clock by `divider`.
    SetClockDivider { divider: u8 },
    /// Read status register 2; answer with [`FlashEvent::Status`].
    ReadStatus2,
    /// Write the two status registers.
    WriteStatus { value: [u8; 2] },
    /// Show a progress message.
    Notify { notice: Notice },
    /// Erase the whole chip.
    EraseChip,
    /// Read four bytes in one-shot mode; answer with [`FlashEvent::Data`].
    ReadMemory { address: u32 },
    /// Write four bytes in one-shot mode.
    WriteMemory { address: u32, data: [u8; 4] },
    /// Show four bytes with a label.
    Report { kind: ReportKind, data: [u8; 4] },
    /// Switch the peripheral to XIP mode.
    EnterXip,
    /// Read four bytes at this offset of the XIP window; answer with [`FlashEvent::Data`].
    ReadXip { offset: u32 },
    /// Switch the peripheral back to one-shot mode.
    LeaveXip,
    /// A read-back differed from what was written: blink the LED forever.
    Blink,
    /// Every check passed: turn the LED off and sleep forever.
    Finish,
}

/// What came of an action.
#[derive(Clone, Copy, Debug, PartialEq, Eq)]
pub enum FlashEvent {
    /// The action was carried out.
    Done,
    /// The value of a status register.
    Status(u8),
    /// Four bytes read from the chip.
    Data([u8; 4]),
}

/// Where the self-test stands. Each stage names one action.
#[derive(Clone, Copy, Debug, PartialEq, Eq)]
pub enum Stage {
    PowerUpPause,
    IdleBeforeReset,
    EnableReset,
    Reset,
    ResetPause,
    SetDivider,
    CheckQuad,
    QuadWait,
    QuadWriteEnable,
    QuadSet,
    EraseWait,
    EraseWriteEnable,
    EraseNotice,
    Erase,
    EraseSettle,
    EraseDone,
    ReadErased,
    ReportErased([u8; 4]),
    WriteWait,
    WriteWriteEnable,
    WriteStart,
    ReportWritten,
    ReadWait,
    ReadBack,
    ReportReadBack([u8; 4]),
    XipWriteWait,
    XipWriteEnable,
    XipWrite,
    ReportXipWritten,
    EnterXip,
    XipRead,
    ReportXip([u8; 4]),
    LeaveXip,
    OneshotWait,
    OneshotRead,
    ReportOneshot([u8; 4]),
    Passed,
    Failed,
}

/// The pattern written to address 0.
pub open spec fn start_pattern() -> Seq<u8> {
    seq![0x00u8, 0xffu8, 0xaau8, 0x11u8]
}

/// The pattern written to address 0x800.
pub open spec fn xip_pattern() -> Seq<u8> {
    seq![0x01u8, 0xaau8, 0xceu8, 0x04u8]
}

/// Address of the first pattern.
pub const START_ADDRESS: u32 = 0;

/// Address of the second pattern, read back through the XIP window too.
pub const XIP_ADDRESS: u32 = 0x800;

/// The action each stage asks for.
pub open spec fn spec_action(s: Stage) -> FlashAction {
    match s {
        Stage::PowerUpPause => FlashAction::Pause { ms: 15 },
        Stage::IdleBeforeReset => FlashAction::AwaitReady,
        Stage::EnableReset => FlashAction::Run { command: FlashCommand::EnableReset },
        Stage::Reset => FlashAction::Run { command: FlashCommand::Reset },
        Stage::ResetPause => FlashAction::Pause { ms: 15 },
        Stage::SetDivider => FlashAction::SetClockDivider { divider: 3 },
        Stage::CheckQuad => FlashAction::ReadStatus2,
        Stage::QuadWait => FlashAction::AwaitReady,
        Stage::QuadWriteEnable => FlashAction::Run { command: FlashCommand::WriteEnable },
        Stage::QuadSet => FlashAction::WriteStatus { value: [0x00, 0x02] },
        Stage::EraseWait => FlashAction::AwaitReady,
        Stage::EraseWriteEnable => FlashAction::Run { command: FlashCommand::WriteEnable },
        Stage::EraseNotice => FlashAction::Notify { notice: Notice::Erasing },
        Stage::Erase => FlashAction::EraseChip,
        Stage::EraseSettle => FlashAction::AwaitReady,
        Stage::EraseDone => FlashAction::Notify { notice: Notice::Erased },
        Stage::ReadErased => FlashAction::ReadMemory { address: START_ADDRESS },
        Stage::ReportErased(d) => FlashAction::Report { kind: ReportKind::PostErase, data: d },
        Stage::WriteWait => FlashAction::AwaitReady,
        Stage::WriteWriteEnable => FlashAction::Run { command: FlashCommand::WriteEnable },
        Stage::WriteStart => FlashAction::WriteMemory { address: START_ADDRESS, data: [0x00, 0xff, 0xaa, 0x11] },
        Stage::ReportWritten => FlashAction::Report { kind: ReportKind::WroteStart, data: [0x00, 0xff, 0xaa, 0x11] },
        Stage::ReadWait => FlashAction::AwaitReady,
        Stage::ReadBack => FlashAction::ReadMemory { address: START_ADDRESS },
        Stage::ReportReadBack(d) => FlashAction::Report { kind: ReportKind::PostWrite, data: d },
        Stage::XipWriteWait => FlashAction::AwaitReady,
        Stage::XipWriteEnable => FlashAction::Run { command: FlashCommand::WriteEnable },
        Stage::XipWrite => FlashAction::WriteMemory { address: XIP_ADDRESS, data: [0x01, 0xaa, 0xce, 0x04] },
        Stage::ReportXipWritten => FlashAction::Report { kind: ReportKind::WroteXip, data: [0x01, 0xaa, 0xce, 0x04] },
        Stage::EnterXip => FlashAction::EnterXip,
        Stage::XipRead => FlashAction::ReadXip { offset: XIP_ADDRESS },
        Stage::ReportXip(d) => FlashAction::Report { kind: ReportKind::XipRead, data: d },
        Stage::LeaveXip => FlashAction::LeaveXip,
        Stage::OneshotWait => FlashAction::AwaitReady,
        Stage::OneshotRead => FlashAction::ReadMemory { address: XIP_ADDRESS },
        Stage::ReportOneshot(d) => FlashAction::Report { kind: ReportKind::PostXip, data: d },
        Stage::Passed => FlashAction::Finish,
        Stage::Failed => FlashAction::Blink,
    }
}

/// The stage after `s` once its action has been carried out with outcome
/// `e`. A stage that reads waits for its reading; the end stages stay.
pub open spec fn spec_advance(s: Stage, e: FlashEvent) -> Stage {
    match s {
        Stage::PowerUpPause => Stage::IdleBeforeReset,
        Stage::IdleBeforeReset => Stage::EnableReset,
        Stage::EnableReset => Stage::Reset,
        Stage::Reset => Stage::ResetPause,
        Stage::ResetPause => Stage::SetDivider,
        Stage::SetDivider => Stage::CheckQuad,
        Stage::CheckQuad => match e {
            FlashEvent::Status(v) => if bit(v, 1) { Stage::EraseWait } else { Stage::QuadWait },
            _ => Stage::CheckQuad,
        },
        Stage::QuadWait => Stage::QuadWriteEnable,
        Stage::QuadWriteEnable => Stage::QuadSet,
        Stage::QuadSet => Stage::EraseWait,
        Stage::EraseWait => Stage::EraseWriteEnable,
        Stage::EraseWriteEnable => Stage::EraseNotice,
        Stage::EraseNotice => Stage::Erase,
        Stage::Erase => Stage::EraseSettle,
        Stage::EraseSettle => Stage::EraseDone,
        Stage::EraseDone => Stage::ReadErased,
        Stage::ReadErased => match e {
            FlashEvent::Data(d) => Stage::ReportErased(d),
            _ => Stage::ReadErased,
        },
        Stage::ReportErased(_) => Stage::WriteWait,
        Stage::WriteWait => Stage::WriteWriteEnable,
        Stage::WriteWriteEnable => Stage::WriteStart,
        Stage::WriteStart => Stage::ReportWritten,
        Stage::ReportWritten => Stage::ReadWait,
        Stage::ReadWait => Stage::ReadBack,
        Stage::ReadBack => match e {
            FlashEvent::Data(d) => Stage::ReportReadBack(d),
            _ => Stage::ReadBack,
        },
        Stage::ReportReadBack(d) => if d@ == start_pattern() { Stage::XipWriteWait } else { Stage::Failed },
        Stage::XipWriteWait => Stage::XipWriteEnable,
        Stage::XipWriteEnable => Stage::XipWrite,
        Stage::XipWrite => Stage::ReportXipWritten,
        Stage::ReportXipWritten => Stage::EnterXip,
        Stage::EnterXip => Stage::XipRead,
        Stage::XipRead => match e {
            FlashEvent::Data(d) => Stage::ReportXip(d),
            _ => Stage::XipRead,
        },
        Stage::ReportXip(d) => if d@ == xip_pattern() { Stage::LeaveXip } else { Stage::Failed },
        Stage::LeaveXip => Stage::OneshotWait,
        Stage::OneshotWait => Stage::OneshotRead,
        Stage::OneshotRead => match e {
            FlashEvent::Data(d) => Stage::ReportOneshot(d),
            _ => Stage::OneshotRead,
        },
        Stage::ReportOneshot(d) => if d@ == xip_pattern() { Stage::Passed } else { Stage::Failed },
        Stage::Passed => Stage::Passed,
        Stage::Failed => Stage::Failed,
    }
}

fn same_bytes(a: &[u8; 4], b: &[u8; 4]) -> (r: bool)
    ensures
        r == (a@ == b@),
{
    let r = a[0] == b[0] && a[1] == b[1] && a[2] == b[2] && a[3] == b[3];
    proof {
        if r {
            assert(a@ =~= b@);
        } else if a@ == b@ {
            assert(a@[0] == b@[0] && a@[1] == b@[1] && a@[2] == b@[2] && a@[3] == b@[3]);
        }
    }
    r
}

fn start_bytes() -> (d: [u8; 4])
    ensures
        d@ == start_pattern(),
{
    let d = [0x00u8, 0xffu8, 0xaau8, 0x11u8];
    assert(d@ =~= start_pattern());
    d
}

fn xip_bytes() -> (d: [u8; 4])
    ensures
        d@ == xip_pattern(),
{
    let d = [0x01u8, 0xaau8, 0xceu8, 0x04u8];
    assert(d@ =~= xip_pattern());
    d
}

impl Stage {
    /// The first stage of the self-test.
    pub fn start() -> (s: Stage)
        ensures
            s == Stage::PowerUpPause,
    {
        Stage::PowerUpPause
    }

    /// The action this stage asks for.
    pub fn action(&self) -> (a: FlashAction)
        ensures
            a == spec_action(*self),
    {
        match self {
            Stage::PowerUpPause => FlashAction::Pause { ms: 15 },
            Stage::IdleBeforeReset => FlashAction::AwaitReady,
            Stage::EnableReset => FlashAction::Run { command: FlashCommand::EnableReset },
            Stage::Reset => FlashAction::Run { command: FlashCommand::Reset },
            Stage::ResetPause => FlashAction::Pause { ms: 15 },
            Stage::SetDivider => FlashAction::SetClockDivider { divider: 3 },
            Stage::CheckQuad => FlashAction::ReadStatus2,
            Stage::QuadWait => FlashAction::AwaitReady,
            Stage::QuadWriteEnable => FlashAction::Run { command: FlashCommand::WriteEnable },
            Stage::QuadSet => FlashAction::WriteStatus { value: [0x00, 0x02] },
            Stage::EraseWait => FlashAction::AwaitReady,
            Stage::EraseWriteEnable => FlashAction::Run { command: FlashCommand::WriteEnable },
            Stage::EraseNotice => FlashAction::Notify { notice: Notice::Erasing },
            Stage::Erase => FlashAction::EraseChip,
            Stage::EraseSettle => FlashAction::AwaitReady,
            Stage::EraseDone => FlashAction::Notify { notice: Notice::Erased },
            Stage::ReadErased => FlashAction::ReadMemory { address: START_ADDRESS },
            Stage::ReportErased(d) => FlashAction::Report { kind: ReportKind::PostErase, data: *d },
            Stage::WriteWait => FlashAction::AwaitReady,
            Stage::WriteWriteEnable => FlashAction::Run { command: FlashCommand::WriteEnable },
            Stage::WriteStart => FlashAction::WriteMemory { address: START_ADDRESS, data: [0x00, 0xff, 0xaa, 0x11] },
            Stage::ReportWritten => FlashAction::Report { kind: ReportKind::WroteStart, data: [0x00, 0xff, 0xaa, 0x11] },
            Stage::ReadWait => FlashAction::AwaitReady,
            Stage::ReadBack => FlashAction::ReadMemory { address: START_ADDRESS },
            Stage::ReportReadBack(d) => FlashAction::Report { kind: ReportKind::PostWrite, data: *d },
            Stage::XipWriteWait => FlashAction::AwaitReady,
            Stage::XipWriteEnable => FlashAction::Run { command: FlashCommand::WriteEnable },
            Stage::XipWrite => FlashAction::WriteMemory { address: XIP_ADDRESS, data: [0x01, 0xaa, 0xce, 0x04] },
            Stage::ReportXipWritten => FlashAction::Report { kind: ReportKind::WroteXip, data: [0x01, 0xaa, 0xce, 0x04] },
            Stage::EnterXip => FlashAction::EnterXip,
            Stage::XipRead => FlashAction::ReadXip { offset: XIP_ADDRESS },
            Stage::ReportXip(d) => FlashAction::Report { kind: ReportKind::XipRead, data: *d },
            Stage::LeaveXip => FlashAction::LeaveXip,
            Stage::OneshotWait => FlashAction::AwaitReady,
            Stage::OneshotRead => FlashAction::ReadMemory { address: XIP_ADDRESS },
            Stage::ReportOneshot(d) => FlashAction::Report { kind: ReportKind::PostXip, data: *d },
            Stage::Passed => FlashAction::Finish,
            Stage::Failed => FlashAction::Blink,
        }
    }

    /// The next stage, given the outcome of this stage's action.
    pub fn advance(self, e: FlashEvent) -> (s: Stage)
        ensures
            s == spec_advance(self, e),
    {
        match self {
            Stage::PowerUpPause => Stage::IdleBeforeReset,
            Stage::IdleBeforeReset => Stage::EnableReset,
            Stage::EnableReset => Stage::Reset,
            Stage::Reset => Stage::ResetPause,
            Stage::ResetPause => Stage::SetDivider,
            Stage::SetDivider => Stage::CheckQuad,
            Stage::CheckQuad => match e {
                FlashEvent::Status(v) => if Status2(v).quad_en() { Stage::EraseWait } else { Stage::QuadWait },
                _ => Stage::CheckQuad,
            },
            Stage::QuadWait => Stage::QuadWriteEnable,
            Stage::QuadWriteEnable => Stage::QuadSet,
            Stage::QuadSet => Stage::EraseWait,
            Stage::EraseWait => Stage::EraseWriteEnable,
            Stage::EraseWriteEnable => Stage::EraseNotice,
            Stage::EraseNotice => Stage::Erase,
            Stage::Erase => Stage::EraseSettle,
            Stage::EraseSettle => Stage::EraseDone,
            Stage::EraseDone => Stage::ReadErased,
            Stage::ReadErased => match e {
                FlashEvent::Data(d) => Stage::ReportErased(d),
                _ => Stage::ReadErased,
            },
            Stage::ReportErased(_) => Stage::WriteWait,
            Stage::WriteWait => Stage::WriteWriteEnable,
            Stage::WriteWriteEnable => Stage::WriteStart,
            Stage::WriteStart => Stage::ReportWritten,
            Stage::ReportWritten => Stage::ReadWait,
            Stage::ReadWait => Stage::ReadBack,
            Stage::ReadBack => match e {
                FlashEvent::Data(d) => Stage::ReportReadBack(d),
                _ => Stage::ReadBack,
            },
            Stage::ReportReadBack(d) => if same_bytes(&d, &start_bytes()) { Stage::XipWriteWait } else { Stage::Failed },
            Stage::XipWriteWait => Stage::XipWriteEnable,
            Stage::XipWriteEnable => Stage::XipWrite,
            Stage::XipWrite => Stage::ReportXipWritten,
            Stage::ReportXipWritten => Stage::EnterXip,
            Stage::EnterXip => Stage::XipRead,
            Stage::XipRead => match e {
                FlashEvent::Data(d) => Stage::ReportXip(d),
                _ => Stage::XipRead,
            },
            Stage::ReportXip(d) => if same_bytes(&d, &xip_bytes()) { Stage::LeaveXip } else { Stage::Failed },
            Stage::LeaveXip => Stage::OneshotWait,
            Stage::OneshotWait => Stage::OneshotRead,
            Stage::OneshotRead => match e {
                FlashEvent::Data(d) => Stage::ReportOneshot(d),
                _ => Stage::OneshotRead,
            },
            Stage::ReportOneshot(d) => if same_bytes(&d, &xip_bytes()) { Stage::Passed } else { Stage::Failed },
            Stage::Passed => Stage::Passed,
            Stage::Failed => Stage::Failed,
        }
    }
}

/// Actions that change what the chip stores: its status registers or its array.
pub open spec fn programs_chip(a: FlashAction) -> bool {
    a is WriteStatus || a is EraseChip || a is WriteMemory
}

/// Actions that do not talk to the chip at all.
pub open spec fn off_chip(a: FlashAction) -> bool {
    a is Pause || a is Notify || a is Report || a is Blink || a is Finish
}

/// The stages reached right after a WriteEnable, with no flash command sent since.
pub open spec fn write_latched(s: Stage) -> bool {
    s is QuadSet || s is EraseNotice || s is Erase || s is WriteStart || s is XipWrite
}

/// Law: the chip is only programmed or erased while its write latch is
/// set: every programming action comes at a latched stage, and a latched
/// stage is entered only from a WriteEnable, or from a latched stage whose
/// action does not talk to the chip.
pub proof fn lemma_programming_follows_write_enable(s: Stage, e: FlashEvent)
    ensures
        programs_chip(spec_action(s)) ==> write_latched(s),
        write_latched(spec_advance(s, e)) ==> spec_action(s) == (FlashAction::Run {
            command: FlashCommand::WriteEnable,
        }) || (write_latched(s) && off_chip(spec_action(s))),
{
}

/// Law: each read-back lets the test go on only if the four bytes equal the
/// pattern written there; otherwise the test fails, and a failed or passed
/// test stays so.
pub proof fn lemma_read_backs_gate_progress(d: [u8; 4], e: FlashEvent)
    ensures
        spec_advance(Stage::ReportReadBack(d), e) is XipWriteWait <==> d@ == start_pattern(),
        spec_advance(Stage::ReportReadBack(d), e) is Failed <==> d@ != start_pattern(),
        spec_advance(Stage::ReportXip(d), e) is LeaveXip <==> d@ == xip_pattern(),
        spec_advance(Stage::ReportXip(d), e) is Failed <==> d@ != xip_pattern(),
        spec_advance(Stage::ReportOneshot(d), e) is Passed <==> d@ == xip_pattern(),
        spec_advance(Stage::ReportOneshot(d), e) is Failed <==> d@ != xip_pattern(),
        spec_advance(Stage::Passed, e) is Passed,
        spec_advance(Stage::Failed, e) is Failed,
{
}

/// Law: the test passes only through the last read-back with the second
/// pattern, and fails only at a read-back that differs from its pattern.
pub proof fn lemma_verdicts_come_from_read_backs(s: Stage, e: FlashEvent)
    ensures
        spec_advance(s, e) is Passed ==> s is Passed || (s matches Stage::ReportOneshot(d) && d@
            == xip_pattern()),
        spec_advance(s, e) is Failed ==> s is Failed || (s matches Stage::ReportReadBack(d) && d@
            != start_pattern()) || (s matches Stage::ReportXip(d) && d@ != xip_pattern()) || (
        s matches Stage::ReportOneshot(d) && d@ != xip_pattern()),
{
}

/// The address an action reads from, if it reads the chip's contents.
pub open spec fn read_address(a: FlashAction) -> Option<u32> {
    match a {
        FlashAction::ReadMemory { address } => Some(address),
        FlashAction::ReadXip { offset } => Some(offset),
        _ => None,
    }
}

/// A stage that judges a read-back.
pub open spec fn is_read_back_check(s: Stage) -> bool {
    s is ReportReadBack || s is ReportXip || s is ReportOneshot
}

/// Law: every read whose bytes are judged reads the address that a write
/// of the self-test filled, and the judgement is exactly whether the bytes
/// read equal the bytes written there: the first pattern is read back from
/// address 0, the second, through the XIP window and in one-shot mode, from
/// address 0x800.
pub proof fn lemma_read_backs_read_where_written(s: Stage, d: [u8; 4], e: FlashEvent)
    ensures
        spec_advance(s, FlashEvent::Data(d)) is ReportReadBack ==> read_address(spec_action(s)) == Some(
            0u32,
        ),
        spec_advance(s, FlashEvent::Data(d)) is ReportXip ==> spec_action(s) == (FlashAction::ReadXip {
            offset: 0x800u32,
        }),
        spec_advance(s, FlashEvent::Data(d)) is ReportOneshot ==> spec_action(s) == (FlashAction::ReadMemory {
            address: 0x800u32,
        }),
        is_read_back_check(spec_advance(s, FlashEvent::Data(d))) ==> exists|w: Stage|
            #[trigger] spec_action(w) matches FlashAction::WriteMemory { address, data } && read_address(
                spec_action(s),
            ) == Some(address) && (spec_advance(spec_advance(s, FlashEvent::Data(d)), e) is Failed
                <==> d@ != data@),
{
    let a = [0x00u8, 0xffu8, 0xaau8, 0x11u8];
    let b = [0x01u8, 0xaau8, 0xceu8, 0x04u8];
    assert(a@ =~= start_pattern());
    assert(b@ =~= xip_pattern());
    if is_read_back_check(spec_advance(s, FlashEvent::Data(d))) {
        match s {
            Stage::ReadBack => {
                assert(spec_action(Stage::WriteStart) == FlashAction::WriteMemory { address: START_ADDRESS, data: a });
            },
            Stage::XipRead => {
                assert(spec_action(Stage::XipWrite) == FlashAction::WriteMemory { address: XIP_ADDRESS, data: b });
            },
            Stage::OneshotRead => {
                assert(spec_action(Stage::XipWrite) == FlashAction::WriteMemory { address: XIP_ADDRESS, data: b });
            },
            _ => {},
        }
    }
}

/// Law: whatever the stage, the self-test pauses 15 ms, divides the QSPI
/// clock by 3 (120 MHz down to 40 MHz, within the chip's 80 MHz), writes
/// status registers 1 and 2 as 0x00 and 0x02 (only quad enable set), and
/// writes only the first pattern to address 0 and the second to address
/// 0x800; what it reports as written is what it writes, and what it reports
/// as read is what the read before returned.
pub proof fn lemma_action_parameters(s: Stage, d: [u8; 4])
    ensures
        spec_action(s) matches FlashAction::Pause { ms } ==> ms == 15,
        spec_action(s) matches FlashAction::SetClockDivider { divider } ==> divider == 3,
        spec_action(s) matches FlashAction::WriteStatus { value } ==> value@ == seq![0x00u8, 0x02u8],
        spec_action(s) matches FlashAction::WriteMemory { address, data } ==> (address == 0 && data@
            == start_pattern()) || (address == 0x800 && data@ == xip_pattern()),
        spec_action(s) matches FlashAction::Report { kind, data } ==> (kind is WroteStart ==> data@
            == start_pattern()) && (kind is WroteXip ==> data@ == xip_pattern()),
        (is_read_back_check(spec_advance(s, FlashEvent::Data(d))) || spec_advance(s, FlashEvent::Data(d)) is ReportErased)
            ==> (spec_action(spec_advance(s, FlashEvent::Data(d))) matches FlashAction::Report { kind, data } && data == d),
{
    let a = [0x00u8, 0xffu8, 0xaau8, 0x11u8];
    let b = [0x01u8, 0xaau8, 0xceu8, 0x04u8];
    let q = [0x00u8, 0x02u8];
    assert(a@ =~= start_pattern());
    assert(b@ =~= xip_pattern());
    assert(q@ =~= seq![0x00u8, 0x02u8]);
}

} // verus!
