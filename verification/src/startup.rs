//! What the runtime decides while it boots: which hardware to bring up and in
//! what order, the addresses of the network interface, and the tasks to spawn.

use vstd::prelude::*;
use vstd::string::StrSliceExecFns;

verus! {

/// The hardware that the gateware of this build provides.
#[derive(Clone, Copy, Debug, PartialEq, Eq)]
pub struct Capabilities {
    pub slave_fpga_cfg: bool,
    pub serwb_phy_amc: bool,
    pub hmc830_7043: bool,
    pub ad9154: bool,
    pub allaki_atts: bool,
    pub i2c: bool,
    pub rtio_moninj: bool,
    pub drtio: bool,
    pub rtio_analyzer: bool,
    pub grabber: bool,
}

/// One step of bringing up the converter hardware.
#[derive(Clone, Copy, Debug, PartialEq, Eq)]
pub enum HwStep {
    /// Load the gateware of the slave FPGA.
    LoadSlaveFpga,
    /// Wait for the serial link between the two FPGAs.
    WaitSerwb,
    /// Initialise the clock chips.
    InitHmc830_7043,
    /// Drive the reset of the JESD links to the given level.
    JesdReset(bool),
    /// Initialise the DACs.
    InitAd9154,
    /// Align SYSREF at the FPGA.
    AlignSysrefRtio,
    /// Align SYSREF at the DACs.
    AlignSysrefDac,
    /// Program every attenuator with the given code.
    ProgramAttenuators(u8),
}

/// What a failed step means for the boot.
#[derive(Clone, Copy, Debug, PartialEq, Eq)]
pub enum Recovery {
    /// The boot cannot go on; the text says why.
    Abort(&'static str),
    /// The failure is logged with the text and the boot goes on.
    Continue(&'static str),
}

/// The attenuator code for 4 dB.
pub const ATTENUATION_4DB: u8 = 8;

/// The steps for the given hardware, in the order in which they must run.
/// The clock chips come before every other SPI device, because bringing them
/// up selects the SPI mode.
pub open spec fn hw_init_plan(caps: Capabilities) -> Seq<HwStep> {
    (if caps.slave_fpga_cfg {
        seq![HwStep::LoadSlaveFpga]
    } else {
        Seq::empty()
    }) + (if caps.serwb_phy_amc {
        seq![HwStep::WaitSerwb]
    } else {
        Seq::empty()
    }) + (if caps.hmc830_7043 {
        seq![HwStep::InitHmc830_7043]
    } else {
        Seq::empty()
    }) + (if caps.ad9154 {
        seq![
            HwStep::JesdReset(false),
            HwStep::InitAd9154,
            HwStep::AlignSysrefRtio,
            HwStep::AlignSysrefDac,
        ]
    } else {
        Seq::empty()
    }) + (if caps.allaki_atts {
        seq![HwStep::ProgramAttenuators(8)]
    } else {
        Seq::empty()
    })
}

/// Lists the steps that bring up the converter hardware of this build.
pub fn sayma_hw_init(caps: &Capabilities) -> (plan: Vec<HwStep>)
    ensures
        plan@ == hw_init_plan(*caps),
{
    let mut plan: Vec<HwStep> = Vec::new();
    if caps.slave_fpga_cfg {
        plan.push(HwStep::LoadSlaveFpga);
    }
    if caps.serwb_phy_amc {
        plan.push(HwStep::WaitSerwb);
    }
    if caps.hmc830_7043 {
        plan.push(HwStep::InitHmc830_7043);
    }
    if caps.ad9154 {
        plan.push(HwStep::JesdReset(false));
        plan.push(HwStep::InitAd9154);
        plan.push(HwStep::AlignSysrefRtio);
        plan.push(HwStep::AlignSysrefDac);
    }
    if caps.allaki_atts {
        plan.push(HwStep::ProgramAttenuators(ATTENUATION_4DB));
    }
    assert(plan@ =~= hw_init_plan(*caps));
    plan
}

/// What follows when `step` fails: `None` for a step that cannot fail.
pub open spec fn recovery_of(step: HwStep) -> Option<Recovery> {
    match step {
        HwStep::LoadSlaveFpga => Some(Recovery::Abort("cannot load RTM FPGA gateware")),
        HwStep::InitHmc830_7043 => Some(Recovery::Abort("cannot initialize HMC830/7043")),
        HwStep::AlignSysrefRtio => Some(Recovery::Continue("failed to align SYSREF at FPGA")),
        HwStep::AlignSysrefDac => Some(Recovery::Continue("failed to align SYSREF at DAC")),
        _ => None,
    }
}

/// Says what a failure of `step` means: without the slave FPGA or the clock
/// chips the boot stops, a failed alignment is logged and the boot goes on.
pub fn hw_step_failed(step: HwStep) -> (recovery: Option<Recovery>)
    ensures
        recovery == recovery_of(step),
{
    match step {
        HwStep::LoadSlaveFpga => Some(Recovery::Abort("cannot load RTM FPGA gateware")),
        HwStep::InitHmc830_7043 => Some(Recovery::Abort("cannot initialize HMC830/7043")),
        HwStep::AlignSysrefRtio => Some(Recovery::Continue("failed to align SYSREF at FPGA")),
        HwStep::AlignSysrefDac => Some(Recovery::Continue("failed to align SYSREF at DAC")),
        _ => None,
    }
}

/// The boards that the runtime is built for.
#[derive(Clone, Copy, Debug, PartialEq, Eq, Structural)]
pub enum Board {
    Kasli,
    SaymaAmc,
    Metlino,
    Kc705,
}

/// Where an address of the network interface came from.
#[derive(Clone, Copy, Debug, PartialEq, Eq, Structural)]
pub enum Source {
    /// The configuration in flash.
    Config,
    /// The EEPROM of the board.
    Eeprom,
    /// The default of the board: worth a warning.
    Default,
}

/// An Ethernet address.
#[derive(Clone, Copy, Debug, PartialEq, Eq)]
pub struct HardwareAddress {
    pub octets: [u8; 6],
}

impl View for HardwareAddress {
    type V = Seq<u8>;

    /// The six octets, first on the wire first.
    open spec fn view(&self) -> Seq<u8> {
        self.octets@
    }
}

/// An IP address of either version.
#[derive(Clone, Copy, Debug, PartialEq, Eq)]
pub enum ProtocolAddress {
    V4([u8; 4]),
    V6([u8; 16]),
}

impl View for ProtocolAddress {
    type V = Seq<u8>;

    /// The octets in network order: four for version 4, sixteen for version 6.
    open spec fn view(&self) -> Seq<u8> {
        match self {
            ProtocolAddress::V4(octets) => octets@,
            ProtocolAddress::V6(octets) => octets@,
        }
    }
}

/// The octets of the Ethernet address that `text` spells, as the network
/// stack reads it; `None` where it spells none.
pub uninterp spec fn mac_of_text(text: Seq<char>) -> Option<Seq<u8>>;

/// The octets of the IP address that `text` spells, as the network stack
/// reads it: four for version 4, sixteen for version 6; `None` where it
/// spells none.
pub uninterp spec fn ip_of_text(text: Seq<char>) -> Option<Seq<u8>>;

/// Reads an Ethernet address with `smoltcp`'s `FromStr` for
/// `EthernetAddress`. Trusted: the result is the address that the network
/// stack finds in the whole of `text`, or `None` where it finds none.
#[verifier::external_body]
fn parse_hardware_address(text: &str) -> (parsed: Option<HardwareAddress>)
    ensures
        match parsed {
            Some(address) => mac_of_text(text@) == Some(address@),
            None => mac_of_text(text@) is None,
        },
{
    match text.parse::<smoltcp::wire::EthernetAddress>() {
        Ok(address) => Some(HardwareAddress { octets: address.0 }),
        Err(_) => None,
    }
}

/// Reads an IP address with `smoltcp`'s `FromStr` for `IpAddress`. Trusted:
/// the result is the address that the network stack finds in the whole of
/// `text`, of the version that it finds, or `None` where it finds none.
#[verifier::external_body]
fn parse_protocol_address(text: &str) -> (parsed: Option<ProtocolAddress>)
    ensures
        match parsed {
            Some(address) => ip_of_text(text@) == Some(address@),
            None => ip_of_text(text@) is None,
        },
{
    match text.parse::<smoltcp::wire::IpAddress>() {
        Ok(smoltcp::wire::IpAddress::Ipv4(address)) => Some(ProtocolAddress::V4(address.0)),
        Ok(smoltcp::wire::IpAddress::Ipv6(address)) => Some(ProtocolAddress::V6(address.0)),
        _ => None,
    }
}

/// The Ethernet address that a board uses when it is given none.
pub open spec fn default_mac(board: Board) -> Seq<u8> {
    match board {
        Board::Kasli => seq![0x02u8, 0x00u8, 0x00u8, 0x00u8, 0x00u8, 0x21u8],
        Board::SaymaAmc => seq![0x02u8, 0x00u8, 0x00u8, 0x00u8, 0x00u8, 0x11u8],
        Board::Metlino => seq![0x02u8, 0x00u8, 0x00u8, 0x00u8, 0x00u8, 0x19u8],
        Board::Kc705 => seq![0x02u8, 0x00u8, 0x00u8, 0x00u8, 0x00u8, 0x01u8],
    }
}

/// The IP address that a board uses when it is given none: a host of
/// 192.168.1.0/24.
pub open spec fn default_ip(board: Board) -> Seq<u8> {
    match board {
        Board::Kasli => seq![192u8, 168u8, 1u8, 70u8],
        Board::SaymaAmc => seq![192u8, 168u8, 1u8, 60u8],
        Board::Metlino => seq![192u8, 168u8, 1u8, 65u8],
        Board::Kc705 => seq![192u8, 168u8, 1u8, 50u8],
    }
}

/// The Ethernet address of the interface and where it comes from: the
/// configured one; else, on a board with an EEPROM, the one read from it;
/// else the board's default.
pub open spec fn chosen_mac(
    configured: Option<Seq<u8>>,
    board: Board,
    eeprom: Option<Seq<u8>>,
) -> (Seq<u8>, Source) {
    match configured {
        Some(octets) => (octets, Source::Config),
        None => if board == Board::Kasli && eeprom is Some {
            (eeprom->0, Source::Eeprom)
        } else {
            (default_mac(board), Source::Default)
        },
    }
}

/// The IP address of the interface and where it comes from: the configured
/// one, else the board's default.
pub open spec fn chosen_ip(configured: Option<Seq<u8>>, board: Board) -> (Seq<u8>, Source) {
    match configured {
        Some(octets) => (octets, Source::Config),
        None => (default_ip(board), Source::Default),
    }
}

/// The view of an address that may be missing.
pub open spec fn octets_of(address: Option<HardwareAddress>) -> Option<Seq<u8>> {
    match address {
        Some(address) => Some(address@),
        None => None,
    }
}

/// The view of an address that may be missing.
pub open spec fn ip_octets_of(address: Option<ProtocolAddress>) -> Option<Seq<u8>> {
    match address {
        Some(address) => Some(address@),
        None => None,
    }
}

/// Picks the Ethernet address of the interface from what the configuration
/// gave, what the EEPROM gave, and the board.
pub fn choose_hardware_address(
    configured: Option<HardwareAddress>,
    board: Board,
    eeprom: Option<HardwareAddress>,
) -> (chosen: (HardwareAddress, Source))
    ensures
        (chosen.0@, chosen.1) == chosen_mac(octets_of(configured), board, octets_of(eeprom)),
{
    match configured {
        Some(address) => (address, Source::Config),
        None => {
            let last: u8 = match board {
                Board::Kasli => {
                    match eeprom {
                        Some(address) => {
                            return (address, Source::Eeprom);
                        },
                        None => 0x21,
                    }
                },
                Board::SaymaAmc => 0x11,
                Board::Metlino => 0x19,
                Board::Kc705 => 0x01,
            };
            let address = HardwareAddress { octets: [0x02, 0x00, 0x00, 0x00, 0x00, last] };
            assert(address@ =~= default_mac(board));
            (address, Source::Default)
        },
    }
}

/// Picks the IP address of the interface from what the configuration gave
/// and the board.
pub fn choose_protocol_address(configured: Option<ProtocolAddress>, board: Board) -> (chosen: (
    ProtocolAddress,
    Source,
))
    ensures
        (chosen.0@, chosen.1) == chosen_ip(ip_octets_of(configured), board),
        configured is None ==> chosen.0 is V4,
{
    match configured {
        Some(address) => (address, Source::Config),
        None => {
            let host: u8 = match board {
                Board::Kasli => 70,
                Board::SaymaAmc => 60,
                Board::Metlino => 65,
                Board::Kc705 => 50,
            };
            let address = ProtocolAddress::V4([192, 168, 1, host]);
            assert(address@ =~= default_ip(board));
            (address, Source::Default)
        },
    }
}

/// What the text of a configuration key spells as an Ethernet address;
/// `None` for a missing key and for text that spells none.
pub open spec fn configured_mac(text: Option<Seq<char>>) -> Option<Seq<u8>> {
    match text {
        Some(text) => mac_of_text(text),
        None => None,
    }
}

/// The characters of a text that may be missing.
pub open spec fn chars_of(text: Option<&str>) -> Option<Seq<char>> {
    match text {
        Some(text) => Some(text@),
        None => None,
    }
}

/// The characters of a text that may be missing.
pub open spec fn chars_of_string(text: Option<String>) -> Option<Seq<char>> {
    match text {
        Some(text) => Some(text@),
        None => None,
    }
}

/// What the text of a configuration key spells as an IP address; `None` for
/// a missing key and for text that spells none.
pub open spec fn configured_ip(text: Option<Seq<char>>) -> Option<Seq<u8>> {
    match text {
        Some(text) => ip_of_text(text),
        None => None,
    }
}

/// The Ethernet address of the interface: the `mac` key of the configuration
/// where it spells an address, else the EEPROM's on a board that has one,
/// else the board's default.
pub fn hardware_address(mac: Option<&str>, board: Board, eeprom: Option<HardwareAddress>) -> (chosen: (
    HardwareAddress,
    Source,
))
    ensures
        (chosen.0@, chosen.1) == chosen_mac(configured_mac(chars_of(mac)), board, octets_of(eeprom)),
{
    let configured = match mac {
        Some(text) => parse_hardware_address(text),
        None => None,
    };
    choose_hardware_address(configured, board, eeprom)
}

/// How the boot comes by the Ethernet address of the interface.
#[derive(Clone, Copy, Debug, PartialEq, Eq)]
pub enum HardwarePlan {
    /// The configuration gave this address.
    Configured(HardwareAddress),
    /// The EEPROM is to be read; the board's default stands in if it gives none.
    Eeprom,
    /// The board's default, which is this address.
    Default(HardwareAddress),
}

/// `plan` is how a board comes by its Ethernet address when the
/// configuration gave `configured`: the EEPROM is read only where the
/// configuration gave nothing and the board has one.
pub open spec fn hardware_planned(
    configured: Option<Seq<u8>>,
    board: Board,
    plan: HardwarePlan,
) -> bool {
    match plan {
        HardwarePlan::Configured(address) => configured == Some(address@),
        HardwarePlan::Eeprom => configured is None && board == Board::Kasli,
        HardwarePlan::Default(address) => configured is None && board != Board::Kasli && address@
            == default_mac(board),
    }
}

/// The address that `plan` ends in on `board` once the EEPROM gave `eeprom`,
/// and where it comes from.
pub open spec fn settled(plan: HardwarePlan, board: Board, eeprom: Option<Seq<u8>>) -> (
    Seq<u8>,
    Source,
) {
    match plan {
        HardwarePlan::Configured(address) => (address@, Source::Config),
        HardwarePlan::Eeprom => chosen_mac(None, board, eeprom),
        HardwarePlan::Default(address) => (address@, Source::Default),
    }
}

/// Planning first and reading the EEPROM only where the plan asks for it
/// ends in the same address as choosing with everything in hand.
pub proof fn lemma_plan_settles(
    configured: Option<Seq<u8>>,
    board: Board,
    plan: HardwarePlan,
    eeprom: Option<Seq<u8>>,
)
    requires
        hardware_planned(configured, board, plan),
    ensures
        settled(plan, board, eeprom) == chosen_mac(configured, board, eeprom),
{
}

/// Plans how the boot comes by the Ethernet address, from the `mac` key of
/// the configuration and the board.
pub fn plan_hardware_address(mac: Option<&str>, board: Board) -> (plan: HardwarePlan)
    ensures
        hardware_planned(configured_mac(chars_of(mac)), board, plan),
{
    let configured = match mac {
        Some(text) => parse_hardware_address(text),
        None => None,
    };
    match configured {
        Some(address) => HardwarePlan::Configured(address),
        None => {
            match board {
                Board::Kasli => HardwarePlan::Eeprom,
                _ => {
                    let (address, _) = choose_hardware_address(None, board, None);
                    HardwarePlan::Default(address)
                },
            }
        },
    }
}

/// Carries out a plan for the Ethernet address with what the EEPROM gave,
/// where the plan asked for it to be read.
pub fn settle_hardware_address(
    plan: HardwarePlan,
    board: Board,
    eeprom: Option<HardwareAddress>,
) -> (chosen: (HardwareAddress, Source))
    ensures
        (chosen.0@, chosen.1) == settled(plan, board, octets_of(eeprom)),
{
    match plan {
        HardwarePlan::Configured(address) => (address, Source::Config),
        HardwarePlan::Eeprom => choose_hardware_address(None, board, eeprom),
        HardwarePlan::Default(address) => (address, Source::Default),
    }
}

/// The IP address of the interface: the `ip` key of the configuration where
/// it spells an address, else the board's default.
pub fn protocol_address(ip: Option<&str>, board: Board) -> (chosen: (ProtocolAddress, Source))
    ensures
        (chosen.0@, chosen.1) == chosen_ip(configured_ip(chars_of(ip)), board),
{
    let configured = match ip {
        Some(text) => parse_protocol_address(text),
        None => None,
    };
    choose_protocol_address(configured, board)
}

/// The text is the one character `1`.
pub open spec fn is_one(text: Option<Seq<char>>) -> bool {
    text == Some(seq!['1'])
}

/// Whether a configuration key switches its feature on: it does when its
/// value is the one character `1`.
pub fn flag_set(value: Option<&str>) -> (set: bool)
    ensures
        set == is_one(chars_of(value)),
{
    match value {
        Some(text) => {
            if text.unicode_len() == 1 {
                let first = text.get_char(0);
                assert(first == '1' ==> text@ =~= seq!['1']);
                first == '1'
            } else {
                false
            }
        },
        None => false,
    }
}

/// How much is logged.
#[derive(Clone, Copy, Debug, PartialEq, Eq, Structural)]
pub enum LogLevel {
    Off,
    Error,
    Warn,
    Info,
    Debug,
    Trace,
}

/// `text` spells the word whose capital letters are `upper` and whose small
/// letters are `lower`, in capitals, small letters or a mix of them.
pub open spec fn spells(text: Seq<char>, upper: Seq<char>, lower: Seq<char>) -> bool {
    &&& text.len() == upper.len()
    &&& forall|i: int| 0 <= i < text.len() ==> text[i] == upper[i] || text[i] == lower[i]
}

/// The level that `text` names: one of the six names, in either case.
pub open spec fn level_of_text(text: Seq<char>) -> Option<LogLevel> {
    if spells(text, "OFF"@, "off"@) {
        Some(LogLevel::Off)
    } else if spells(text, "ERROR"@, "error"@) {
        Some(LogLevel::Error)
    } else if spells(text, "WARN"@, "warn"@) {
        Some(LogLevel::Warn)
    } else if spells(text, "INFO"@, "info"@) {
        Some(LogLevel::Info)
    } else if spells(text, "DEBUG"@, "debug"@) {
        Some(LogLevel::Debug)
    } else if spells(text, "TRACE"@, "trace"@) {
        Some(LogLevel::Trace)
    } else {
        None
    }
}

/// Reads a level with `log`'s `FromStr` for `LevelFilter`. Trusted: that
/// function compares `text`, ignoring the case of ASCII letters, with the
/// names OFF, ERROR, WARN, INFO, DEBUG and TRACE, and fails where none is equal.
#[verifier::external_body]
fn parse_log_level(text: &str) -> (level: Option<LogLevel>)
    ensures
        level == level_of_text(text@),
{
    match text.parse::<log::LevelFilter>() {
        Ok(log::LevelFilter::Off) => Some(LogLevel::Off),
        Ok(log::LevelFilter::Error) => Some(LogLevel::Error),
        Ok(log::LevelFilter::Warn) => Some(LogLevel::Warn),
        Ok(log::LevelFilter::Info) => Some(LogLevel::Info),
        Ok(log::LevelFilter::Debug) => Some(LogLevel::Debug),
        Ok(log::LevelFilter::Trace) => Some(LogLevel::Trace),
        Err(_) => None,
    }
}

/// The levels that the configuration asks for. `None` keeps the default, INFO.
#[derive(Clone, Copy, Debug, PartialEq, Eq)]
pub struct LogLevels {
    /// For the log as a whole.
    pub log_level: Option<LogLevel>,
    /// For what is copied to the UART.
    pub uart_log_level: Option<LogLevel>,
}

/// The level that a configuration key asks for: none where the key is
/// missing or names no level.
pub open spec fn configured_level(text: Option<Seq<char>>) -> Option<LogLevel> {
    match text {
        Some(text) => level_of_text(text),
        None => None,
    }
}

/// Reads the two levels from the keys `log_level` and `uart_log_level` of
/// the configuration.
pub fn setup_log_levels(log_level: Option<&str>, uart_log_level: Option<&str>) -> (levels: LogLevels)
    ensures
        levels.log_level == configured_level(chars_of(log_level)),
        levels.uart_log_level == configured_level(chars_of(uart_log_level)),
{
    let log_level = match log_level {
        Some(text) => parse_log_level(text),
        None => None,
    };
    let uart_log_level = match uart_log_level {
        Some(text) => parse_log_level(text),
        None => None,
    };
    LogLevels { log_level, uart_log_level }
}

/// The long-lived tasks of the runtime.
#[derive(Clone, Copy, Debug, PartialEq, Eq)]
pub enum TaskKind {
    /// Serves the management protocol.
    Mgmt,
    /// Serves host sessions.
    Session,
    /// Serves monitoring and injection.
    Moninj,
    /// Serves the RTIO analyzer.
    Analyzer,
    /// Polls the frame grabbers.
    Grabber,
}

/// A task to spawn, with the size of its stack in bytes.
#[derive(Clone, Copy, Debug, PartialEq, Eq)]
pub struct TaskSpec {
    pub kind: TaskKind,
    pub stack_bytes: usize,
}

/// How long the grabber task sleeps between two polls, in milliseconds.
pub const GRABBER_PERIOD_MS: u64 = 200;

/// The tasks for the given hardware, in the order in which they are spawned.
/// The session task has the large stack.
pub open spec fn task_plan(caps: Capabilities) -> Seq<TaskSpec> {
    seq![
        TaskSpec { kind: TaskKind::Mgmt, stack_bytes: 4096 },
        TaskSpec { kind: TaskKind::Session, stack_bytes: 16384 },
    ] + (if caps.rtio_moninj || caps.drtio {
        seq![TaskSpec { kind: TaskKind::Moninj, stack_bytes: 4096 }]
    } else {
        Seq::empty()
    }) + (if caps.rtio_analyzer {
        seq![TaskSpec { kind: TaskKind::Analyzer, stack_bytes: 4096 }]
    } else {
        Seq::empty()
    }) + (if caps.grabber {
        seq![TaskSpec { kind: TaskKind::Grabber, stack_bytes: 4096 }]
    } else {
        Seq::empty()
    })
}

/// Lists the tasks to spawn on this build.
pub fn spawn_plan(caps: &Capabilities) -> (plan: Vec<TaskSpec>)
    ensures
        plan@ == task_plan(*caps),
{
    let mut plan: Vec<TaskSpec> = Vec::new();
    plan.push(TaskSpec { kind: TaskKind::Mgmt, stack_bytes: 4096 });
    plan.push(TaskSpec { kind: TaskKind::Session, stack_bytes: 16384 });
    if caps.rtio_moninj || caps.drtio {
        plan.push(TaskSpec { kind: TaskKind::Moninj, stack_bytes: 4096 });
    }
    if caps.rtio_analyzer {
        plan.push(TaskSpec { kind: TaskKind::Analyzer, stack_bytes: 4096 });
    }
    if caps.grabber {
        plan.push(TaskSpec { kind: TaskKind::Grabber, stack_bytes: 4096 });
    }
    assert(plan@ =~= task_plan(*caps));
    plan
}

/// The values of the configuration keys that the boot reads; `None` for a
/// key that is missing or holds no text.
#[derive(Debug, PartialEq, Eq)]
pub struct BootConfig {
    pub log_level: Option<String>,
    pub uart_log_level: Option<String>,
    pub mac: Option<String>,
    pub ip: Option<String>,
    pub net_trace: Option<String>,
}

/// What the boot has decided before the tasks start.
#[derive(Debug, PartialEq, Eq)]
pub struct BootPlan {
    pub log_levels: LogLevels,
    /// Whether the I2C bus is brought up.
    pub init_i2c: bool,
    pub hw_steps: Vec<HwStep>,
    pub hardware: HardwarePlan,
    pub protocol_addr: ProtocolAddress,
    pub protocol_source: Source,
    /// Whether every Ethernet frame is dumped to the console.
    pub net_trace: bool,
    /// Whether the routing table is read from the configuration; it is empty otherwise.
    pub configured_routing: bool,
    pub tasks: Vec<TaskSpec>,
}

/// The text of a key, if it has one.
fn as_text(value: &Option<String>) -> (text: Option<&str>)
    ensures
        chars_of(text) == chars_of_string(*value),
{
    match value {
        Some(text) => Some(text.as_str()),
        None => None,
    }
}

/// Decides, from the configuration, the board and the hardware of this
/// build, everything that the boot sets up before the tasks start: the log
/// levels, the hardware to bring up, how the Ethernet address is come by, the
/// IP address and where it comes from, whether frames are traced, where the
/// routing table comes from, and the tasks.
pub fn startup(config: &BootConfig, board: Board, caps: &Capabilities) -> (plan: BootPlan)
    ensures
        plan.log_levels.log_level == configured_level(chars_of_string(config.log_level)),
        plan.log_levels.uart_log_level == configured_level(chars_of_string(config.uart_log_level)),
        plan.init_i2c == caps.i2c,
        plan.hw_steps@ == hw_init_plan(*caps),
        hardware_planned(configured_mac(chars_of_string(config.mac)), board, plan.hardware),
        (plan.protocol_addr@, plan.protocol_source) == chosen_ip(
            configured_ip(chars_of_string(config.ip)),
            board,
        ),
        plan.net_trace == is_one(chars_of_string(config.net_trace)),
        plan.configured_routing == caps.drtio,
        plan.tasks@ == task_plan(*caps),
{
    let log_levels = setup_log_levels(as_text(&config.log_level), as_text(&config.uart_log_level));
    let hw_steps = sayma_hw_init(caps);
    let hardware = plan_hardware_address(as_text(&config.mac), board);
    let (protocol_addr, protocol_source) = protocol_address(as_text(&config.ip), board);
    let net_trace = flag_set(as_text(&config.net_trace));
    let tasks = spawn_plan(caps);
    BootPlan {
        log_levels,
        init_i2c: caps.i2c,
        hw_steps,
        hardware,
        protocol_addr,
        protocol_source,
        net_trace,
        configured_routing: caps.drtio,
        tasks,
    }
}

/// What one poll of the network interface reported.
#[derive(Clone, Copy, Debug, PartialEq, Eq)]
pub enum Polled {
    /// Frames were taken in or sent out: the sockets may have changed.
    Progress,
    /// Nothing was taken in or sent out.
    Quiet,
    /// A frame of an unknown kind was dropped.
    Unrecognized,
    /// The stack reported another error.
    Failed,
}

/// What the main loop does after a poll.
#[derive(Clone, Copy, Debug, PartialEq, Eq)]
pub struct AfterPoll {
    /// Whether to poll again before the next tick of the scheduler.
    pub again: bool,
    /// Whether the error is worth a line in the debug log.
    pub log: bool,
}

/// The interface is polled until it is quiet, so that whatever woke a task
/// is seen at the next tick. Unknown frames are dropped without a word, and
/// other errors are logged for debugging; neither ends the polling.
pub open spec fn after_poll(polled: Polled) -> AfterPoll {
    AfterPoll { again: polled != Polled::Quiet, log: polled == Polled::Failed }
}

/// Says what the main loop does after a poll of the network interface.
pub fn poll_step(polled: Polled) -> (step: AfterPoll)
    ensures
        step == after_poll(polled),
{
    match polled {
        Polled::Progress => AfterPoll { again: true, log: false },
        Polled::Quiet => AfterPoll { again: false, log: false },
        Polled::Unrecognized => AfterPoll { again: true, log: false },
        Polled::Failed => AfterPoll { again: true, log: true },
    }
}

} // verus!
