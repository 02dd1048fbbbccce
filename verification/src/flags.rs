//! The command line of the build tool: its subcommands and their flags.

use crate::text::{copy_text, push_text, text_is, text_of, texts_of};
use vstd::prelude::*;
use vstd::string::*;

verus! {

/// Name of the configuration file that is read where none is given.
pub open spec fn default_config_path() -> Seq<char> {
    "Poplar.toml"@
}

/// A platform to build for, by the name given on the command line.
#[derive(Debug, PartialEq, Eq)]
pub struct Platform {
    pub name: String,
}

/// The subcommands.
#[derive(Clone, Copy, Debug, PartialEq, Eq, Structural)]
pub enum Command {
    Dist,
    Qemu,
    Boot,
    Opensbi,
    Devicetree,
    Clean,
}

/// The flags that take part in an error.
#[derive(Clone, Copy, Debug, PartialEq, Eq, Structural)]
pub enum FlagName {
    Config,
    Release,
    Platform,
    KernelFeatures,
    Display,
    DebugIntFirehose,
    DebugMmuFirehose,
    DebugCpuFirehose,
    Path,
}

impl FlagName {
    /// The flag as it is written on the command line; the argument of
    /// `devicetree` by its name.
    pub open spec fn text(self) -> Seq<char> {
        match self {
            FlagName::Config => "--config"@,
            FlagName::Release => "--release"@,
            FlagName::Platform => "--platform"@,
            FlagName::KernelFeatures => "--kernel_features"@,
            FlagName::Display => "--display"@,
            FlagName::DebugIntFirehose => "--debug_int_firehose"@,
            FlagName::DebugMmuFirehose => "--debug_mmu_firehose"@,
            FlagName::DebugCpuFirehose => "--debug_cpu_firehose"@,
            FlagName::Path => "path"@,
        }
    }

    /// The flag as it is written on the command line.
    pub fn name(self) -> (r: String)
        ensures
            r@ == self.text(),
    {
        match self {
            FlagName::Config => "--config".to_owned(),
            FlagName::Release => "--release".to_owned(),
            FlagName::Platform => "--platform".to_owned(),
            FlagName::KernelFeatures => "--kernel_features".to_owned(),
            FlagName::Display => "--display".to_owned(),
            FlagName::DebugIntFirehose => "--debug_int_firehose".to_owned(),
            FlagName::DebugMmuFirehose => "--debug_mmu_firehose".to_owned(),
            FlagName::DebugCpuFirehose => "--debug_cpu_firehose".to_owned(),
            FlagName::Path => "path".to_owned(),
        }
    }
}

/// `task dist`: build a distribution.
#[derive(Debug, PartialEq, Eq)]
pub struct Dist {
    pub config: Option<String>,
    pub release: bool,
    pub platform: Option<Platform>,
    pub kernel_features: Option<String>,
}

/// `task qemu`: build a distribution and run it in an emulator.
#[derive(Debug, PartialEq, Eq)]
pub struct Qemu {
    pub config: Option<String>,
    pub release: bool,
    pub platform: Option<Platform>,
    pub kernel_features: Option<String>,
    pub display: bool,
    pub debug_int_firehose: bool,
    pub debug_mmu_firehose: bool,
    pub debug_cpu_firehose: bool,
}

/// `task boot`: build a distribution and boot it.
#[derive(Debug, PartialEq, Eq)]
pub struct Boot {
    pub config: Option<String>,
    pub release: bool,
    pub platform: Option<Platform>,
    pub kernel_features: Option<String>,
}

/// `task opensbi`: build the firmware.
#[derive(Debug, PartialEq, Eq)]
pub struct Opensbi {
    pub platform: Option<Platform>,
}

/// `task devicetree`: compile a device tree.
#[derive(Debug, PartialEq, Eq)]
pub struct Devicetree {
    pub path: String,
}

/// `task clean`: remove what was built.
#[derive(Debug, PartialEq, Eq)]
pub struct Clean;

/// A parsed command line.
#[derive(Debug, PartialEq, Eq)]
pub struct Task {
    pub subcommand: TaskCmd,
}

/// The subcommand of a parsed command line, with its flags.
#[derive(Debug, PartialEq, Eq)]
pub enum TaskCmd {
    Dist(Dist),
    Qemu(Qemu),
    Boot(Boot),
    Opensbi(Opensbi),
    Devicetree(Devicetree),
    Clean(Clean),
}

/// What a distribution is built from.
#[derive(Debug, PartialEq, Eq)]
pub struct DistOptions {
    pub config_path: String,
    pub platform: Option<Platform>,
    pub release: bool,
    pub kernel_features: Option<String>,
}

/// Why a command line was not accepted.
#[derive(Debug, PartialEq, Eq)]
pub enum FlagsError {
    /// Help was asked for with `--help` or `-h`.
    Help,
    /// A flag that the subcommand does not have.
    UnexpectedFlag(String),
    /// An argument that is no subcommand where one is expected, or one that
    /// the subcommand does not take.
    UnexpectedArgument(String),
    /// No subcommand was given.
    SubcommandRequired,
    /// The command line ends behind a flag that takes a value.
    ExpectedValue(String),
    /// A flag was given twice or more.
    SpecifiedMoreThanOnce(FlagName),
    /// An argument that the subcommand needs was not given.
    Required(FlagName),
}

/// The flags shared by the subcommands that build a distribution.
pub struct BuildFlags {
    pub config: Option<Seq<char>>,
    pub release: bool,
    pub platform: Option<Seq<char>>,
    pub kernel_features: Option<Seq<char>>,
}

/// The flags of `task qemu`.
pub struct QemuFlags {
    pub build: BuildFlags,
    pub display: bool,
    pub debug_int_firehose: bool,
    pub debug_mmu_firehose: bool,
    pub debug_cpu_firehose: bool,
}

/// What a parsed command line says.
pub enum TaskModel {
    Dist(BuildFlags),
    Qemu(QemuFlags),
    Boot(BuildFlags),
    Opensbi { platform: Option<Seq<char>> },
    Devicetree { path: Seq<char> },
    Clean,
}

/// What a rejected command line is rejected for.
pub enum FlagsErrorModel {
    Help,
    UnexpectedFlag(Seq<char>),
    UnexpectedArgument(Seq<char>),
    SubcommandRequired,
    ExpectedValue(Seq<char>),
    SpecifiedMoreThanOnce(FlagName),
    Required(FlagName),
}

/// What a distribution is built from.
pub struct DistOptionsModel {
    pub config_path: Seq<char>,
    pub platform: Option<Seq<char>>,
    pub release: bool,
    pub kernel_features: Option<Seq<char>>,
}

/// The name of an optional platform.
pub open spec fn name_of(value: Option<Platform>) -> Option<Seq<char>> {
    match value {
        Some(platform) => Some(platform.name@),
        None => None,
    }
}

impl View for Dist {
    type V = BuildFlags;

    open spec fn view(&self) -> BuildFlags {
        BuildFlags {
            config: text_of(self.config),
            release: self.release,
            platform: name_of(self.platform),
            kernel_features: text_of(self.kernel_features),
        }
    }
}

impl View for Boot {
    type V = BuildFlags;

    open spec fn view(&self) -> BuildFlags {
        BuildFlags {
            config: text_of(self.config),
            release: self.release,
            platform: name_of(self.platform),
            kernel_features: text_of(self.kernel_features),
        }
    }
}

impl View for Qemu {
    type V = QemuFlags;

    open spec fn view(&self) -> QemuFlags {
        QemuFlags {
            build: BuildFlags {
                config: text_of(self.config),
                release: self.release,
                platform: name_of(self.platform),
                kernel_features: text_of(self.kernel_features),
            },
            display: self.display,
            debug_int_firehose: self.debug_int_firehose,
            debug_mmu_firehose: self.debug_mmu_firehose,
            debug_cpu_firehose: self.debug_cpu_firehose,
        }
    }
}

impl View for TaskCmd {
    type V = TaskModel;

    open spec fn view(&self) -> TaskModel {
        match *self {
            TaskCmd::Dist(dist) => TaskModel::Dist(dist@),
            TaskCmd::Qemu(qemu) => TaskModel::Qemu(qemu@),
            TaskCmd::Boot(boot) => TaskModel::Boot(boot@),
            TaskCmd::Opensbi(opensbi) => TaskModel::Opensbi { platform: name_of(opensbi.platform) },
            TaskCmd::Devicetree(devicetree) => TaskModel::Devicetree { path: devicetree.path@ },
            TaskCmd::Clean(_) => TaskModel::Clean,
        }
    }
}

impl View for Task {
    type V = TaskModel;

    open spec fn view(&self) -> TaskModel {
        self.subcommand@
    }
}

impl View for FlagsError {
    type V = FlagsErrorModel;

    open spec fn view(&self) -> FlagsErrorModel {
        match *self {
            FlagsError::Help => FlagsErrorModel::Help,
            FlagsError::UnexpectedFlag(flag) => FlagsErrorModel::UnexpectedFlag(flag@),
            FlagsError::UnexpectedArgument(argument) => FlagsErrorModel::UnexpectedArgument(
                argument@,
            ),
            FlagsError::SubcommandRequired => FlagsErrorModel::SubcommandRequired,
            FlagsError::ExpectedValue(flag) => FlagsErrorModel::ExpectedValue(flag@),
            FlagsError::SpecifiedMoreThanOnce(flag) => FlagsErrorModel::SpecifiedMoreThanOnce(flag),
            FlagsError::Required(flag) => FlagsErrorModel::Required(flag),
        }
    }
}

impl View for DistOptions {
    type V = DistOptionsModel;

    open spec fn view(&self) -> DistOptionsModel {
        DistOptionsModel {
            config_path: self.config_path@,
            platform: name_of(self.platform),
            release: self.release,
            kernel_features: text_of(self.kernel_features),
        }
    }
}

/// What a result of parsing says.
pub open spec fn outcome_of(result: Result<Task, FlagsError>) -> Result<TaskModel, FlagsErrorModel> {
    match result {
        Ok(task) => Ok(task@),
        Err(error) => Err(error@),
    }
}

/// How often a flag without a value was given.
#[derive(Clone, Copy, Debug, PartialEq, Eq, Structural)]
pub enum Times {
    Never,
    Once,
    Repeated,
}

impl Times {
    /// The count after the flag is given once more.
    pub open spec fn and_again(self) -> Times {
        match self {
            Times::Never => Times::Once,
            _ => Times::Repeated,
        }
    }

    fn again(self) -> (r: Times)
        ensures
            r == self.and_again(),
    {
        match self {
            Times::Never => Times::Once,
            _ => Times::Repeated,
        }
    }
}

/// What the flags and arguments read so far hold: for a flag with a value,
/// the values given, in their order; for a flag without one, how often it
/// was given.
pub struct FlagsSeen {
    pub config: Seq<Seq<char>>,
    pub release: Times,
    pub platform: Seq<Seq<char>>,
    pub kernel_features: Seq<Seq<char>>,
    pub display: Times,
    pub debug_int_firehose: Times,
    pub debug_mmu_firehose: Times,
    pub debug_cpu_firehose: Times,
    pub path: Seq<Seq<char>>,
}

/// How far a command line has been read.
pub struct ScanState {
    /// Index of the next argument to read.
    pub position: int,
    /// Whether `--` has been read, behind which nothing is a flag.
    pub literal: bool,
    /// The subcommand, once it has been read.
    pub command: Option<Command>,
    /// What has been read for the subcommand.
    pub seen: FlagsSeen,
}

/// What reading one argument leads to.
pub enum Step {
    Next(ScanState),
    Fail(FlagsErrorModel),
}

/// Nothing read yet.
pub open spec fn nothing_seen() -> FlagsSeen {
    FlagsSeen {
        config: Seq::empty(),
        release: Times::Never,
        platform: Seq::empty(),
        kernel_features: Seq::empty(),
        display: Times::Never,
        debug_int_firehose: Times::Never,
        debug_mmu_firehose: Times::Never,
        debug_cpu_firehose: Times::Never,
        path: Seq::empty(),
    }
}

/// The state in which reading starts.
pub open spec fn start() -> ScanState {
    ScanState { position: 0, literal: false, command: None, seen: nothing_seen() }
}

/// An argument that starts with a dash is read as a flag.
pub open spec fn looks_like_flag(argument: Seq<char>) -> bool {
    argument.len() > 0 && argument[0] == '-'
}

/// The subcommands that build a distribution share four flags.
pub open spec fn builds(command: Option<Command>) -> bool {
    command == Some(Command::Dist) || command == Some(Command::Qemu) || command == Some(
        Command::Boot,
    )
}

/// The subcommand that an argument names.
pub open spec fn command_named(argument: Seq<char>) -> Option<Command> {
    if argument == "dist"@ {
        Some(Command::Dist)
    } else if argument == "qemu"@ {
        Some(Command::Qemu)
    } else if argument == "boot"@ {
        Some(Command::Boot)
    } else if argument == "opensbi"@ {
        Some(Command::Opensbi)
    } else if argument == "devicetree"@ {
        Some(Command::Devicetree)
    } else if argument == "clean"@ {
        Some(Command::Clean)
    } else {
        None
    }
}

/// Reading the value of the flag at the state's position: the argument
/// behind the flag, whatever it looks like. Without one the command line is
/// rejected.
pub open spec fn step_value(args: Seq<Seq<char>>, state: ScanState, flag: FlagName) -> Step {
    if state.position + 1 < args.len() {
        let value = args[state.position + 1];
        let seen = match flag {
            FlagName::Config => FlagsSeen { config: state.seen.config.push(value), ..state.seen },
            FlagName::Platform => FlagsSeen {
                platform: state.seen.platform.push(value),
                ..state.seen
            },
            _ => FlagsSeen {
                kernel_features: state.seen.kernel_features.push(value),
                ..state.seen
            },
        };
        Step::Next(ScanState { position: state.position + 2, seen, ..state })
    } else {
        Step::Fail(FlagsErrorModel::ExpectedValue(args[state.position]))
    }
}

/// Reading the flag at the state's position. Help is known everywhere; every
/// other flag only behind a subcommand that has it.
pub open spec fn step_flag(args: Seq<Seq<char>>, state: ScanState) -> Step {
    let flag = args[state.position];
    let seen = state.seen;
    let next = ScanState { position: state.position + 1, ..state };
    if flag == "--help"@ || flag == "-h"@ {
        Step::Fail(FlagsErrorModel::Help)
    } else if builds(state.command) && flag == "--config"@ {
        step_value(args, state, FlagName::Config)
    } else if builds(state.command) && flag == "--release"@ {
        Step::Next(ScanState { seen: FlagsSeen { release: seen.release.and_again(), ..seen }, ..next })
    } else if (builds(state.command) || state.command == Some(Command::Opensbi)) && (flag
        == "--platform"@ || flag == "-p"@) {
        step_value(args, state, FlagName::Platform)
    } else if builds(state.command) && flag == "--kernel_features"@ {
        step_value(args, state, FlagName::KernelFeatures)
    } else if state.command == Some(Command::Qemu) && flag == "--display"@ {
        Step::Next(ScanState { seen: FlagsSeen { display: seen.display.and_again(), ..seen }, ..next })
    } else if state.command == Some(Command::Qemu) && flag == "--debug_int_firehose"@ {
        Step::Next(
            ScanState {
                seen: FlagsSeen {
                    debug_int_firehose: seen.debug_int_firehose.and_again(),
                    ..seen
                },
                ..next
            },
        )
    } else if state.command == Some(Command::Qemu) && flag == "--debug_mmu_firehose"@ {
        Step::Next(
            ScanState {
                seen: FlagsSeen {
                    debug_mmu_firehose: seen.debug_mmu_firehose.and_again(),
                    ..seen
                },
                ..next
            },
        )
    } else if state.command == Some(Command::Qemu) && flag == "--debug_cpu_firehose"@ {
        Step::Next(
            ScanState {
                seen: FlagsSeen {
                    debug_cpu_firehose: seen.debug_cpu_firehose.and_again(),
                    ..seen
                },
                ..next
            },
        )
    } else {
        Step::Fail(FlagsErrorModel::UnexpectedFlag(flag))
    }
}

/// Reading the argument at the state's position as no flag. The first such
/// argument has to name the subcommand; behind `devicetree` one more is
/// taken as the path; every other is rejected.
pub open spec fn step_argument(args: Seq<Seq<char>>, state: ScanState) -> Step {
    let argument = args[state.position];
    let next = ScanState { position: state.position + 1, ..state };
    match state.command {
        None => match command_named(argument) {
            Some(command) => Step::Next(ScanState { command: Some(command), ..next }),
            None => Step::Fail(FlagsErrorModel::UnexpectedArgument(argument)),
        },
        Some(Command::Devicetree) => if state.seen.path.len() == 0 {
            Step::Next(
                ScanState { seen: FlagsSeen { path: state.seen.path.push(argument), ..state.seen }, ..next },
            )
        } else {
            Step::Fail(FlagsErrorModel::UnexpectedArgument(argument))
        },
        _ => Step::Fail(FlagsErrorModel::UnexpectedArgument(argument)),
    }
}

/// Reading the argument at the state's position. Until `--` has been read,
/// an argument that starts with a dash is a flag, and `--` itself only says
/// that no flag follows.
pub open spec fn step(args: Seq<Seq<char>>, state: ScanState) -> Step {
    let argument = args[state.position];
    if !state.literal && looks_like_flag(argument) {
        if argument == "--"@ {
            Step::Next(ScanState { position: state.position + 1, literal: true, ..state })
        } else {
            step_flag(args, state)
        }
    } else {
        step_argument(args, state)
    }
}

/// Reading the arguments from the state's position to the end. The first
/// argument that is rejected ends the reading.
pub open spec fn scan(args: Seq<Seq<char>>, state: ScanState) -> Result<ScanState, FlagsErrorModel>
    decreases args.len() - state.position,
{
    if state.position < 0 || state.position >= args.len() {
        Ok(state)
    } else {
        match step(args, state) {
            Step::Fail(error) => Err(error),
            Step::Next(next) => if next.position > state.position {
                scan(args, next)
            } else {
                Ok(state)
            },
        }
    }
}

/// The one value of a flag that was given at most once.
pub open spec fn single(values: Seq<Seq<char>>) -> Option<Seq<char>> {
    if values.len() == 0 {
        None
    } else {
        Some(values[0])
    }
}

/// The flags of a subcommand that builds a distribution. Each may be given
/// once; the first that was given more often, in the order config, release,
/// platform, kernel features, is the one reported.
pub open spec fn build_flags(seen: FlagsSeen) -> Result<BuildFlags, FlagsErrorModel> {
    if seen.config.len() > 1 {
        Err(FlagsErrorModel::SpecifiedMoreThanOnce(FlagName::Config))
    } else if seen.release == Times::Repeated {
        Err(FlagsErrorModel::SpecifiedMoreThanOnce(FlagName::Release))
    } else if seen.platform.len() > 1 {
        Err(FlagsErrorModel::SpecifiedMoreThanOnce(FlagName::Platform))
    } else if seen.kernel_features.len() > 1 {
        Err(FlagsErrorModel::SpecifiedMoreThanOnce(FlagName::KernelFeatures))
    } else {
        Ok(
            BuildFlags {
                config: single(seen.config),
                release: seen.release == Times::Once,
                platform: single(seen.platform),
                kernel_features: single(seen.kernel_features),
            },
        )
    }
}

/// The flags of `task qemu`: those of a build, then the four of the
/// emulator, reported in that order where one was given more than once.
pub open spec fn qemu_flags(seen: FlagsSeen) -> Result<QemuFlags, FlagsErrorModel> {
    match build_flags(seen) {
        Err(error) => Err(error),
        Ok(build) => if seen.display == Times::Repeated {
            Err(FlagsErrorModel::SpecifiedMoreThanOnce(FlagName::Display))
        } else if seen.debug_int_firehose == Times::Repeated {
            Err(FlagsErrorModel::SpecifiedMoreThanOnce(FlagName::DebugIntFirehose))
        } else if seen.debug_mmu_firehose == Times::Repeated {
            Err(FlagsErrorModel::SpecifiedMoreThanOnce(FlagName::DebugMmuFirehose))
        } else if seen.debug_cpu_firehose == Times::Repeated {
            Err(FlagsErrorModel::SpecifiedMoreThanOnce(FlagName::DebugCpuFirehose))
        } else {
            Ok(
                QemuFlags {
                    build,
                    display: seen.display == Times::Once,
                    debug_int_firehose: seen.debug_int_firehose == Times::Once,
                    debug_mmu_firehose: seen.debug_mmu_firehose == Times::Once,
                    debug_cpu_firehose: seen.debug_cpu_firehose == Times::Once,
                },
            )
        },
    }
}

/// What a command line that was read to its end says.
pub open spec fn finish(command: Option<Command>, seen: FlagsSeen) -> Result<
    TaskModel,
    FlagsErrorModel,
> {
    match command {
        None => Err(FlagsErrorModel::SubcommandRequired),
        Some(Command::Dist) => match build_flags(seen) {
            Ok(build) => Ok(TaskModel::Dist(build)),
            Err(error) => Err(error),
        },
        Some(Command::Qemu) => match qemu_flags(seen) {
            Ok(qemu) => Ok(TaskModel::Qemu(qemu)),
            Err(error) => Err(error),
        },
        Some(Command::Boot) => match build_flags(seen) {
            Ok(build) => Ok(TaskModel::Boot(build)),
            Err(error) => Err(error),
        },
        Some(Command::Opensbi) => if seen.platform.len() > 1 {
            Err(FlagsErrorModel::SpecifiedMoreThanOnce(FlagName::Platform))
        } else {
            Ok(TaskModel::Opensbi { platform: single(seen.platform) })
        },
        Some(Command::Devicetree) => if seen.path.len() == 1 {
            Ok(TaskModel::Devicetree { path: seen.path[0] })
        } else if seen.path.len() == 0 {
            Err(FlagsErrorModel::Required(FlagName::Path))
        } else {
            Err(FlagsErrorModel::SpecifiedMoreThanOnce(FlagName::Path))
        },
        Some(Command::Clean) => Ok(TaskModel::Clean),
    }
}

/// What the arguments of a command line, without the name of the program,
/// say.
pub open spec fn parse(args: Seq<Seq<char>>) -> Result<TaskModel, FlagsErrorModel> {
    match scan(args, start()) {
        Err(error) => Err(error),
        Ok(state) => finish(state.command, state.seen),
    }
}

/// What has been read for the subcommand.
struct Seen {
    config: Vec<String>,
    release: Times,
    platform: Vec<String>,
    kernel_features: Vec<String>,
    display: Times,
    debug_int_firehose: Times,
    debug_mmu_firehose: Times,
    debug_cpu_firehose: Times,
    path: Vec<String>,
}

impl View for Seen {
    type V = FlagsSeen;

    closed spec fn view(&self) -> FlagsSeen {
        FlagsSeen {
            config: texts_of(self.config@),
            release: self.release,
            platform: texts_of(self.platform@),
            kernel_features: texts_of(self.kernel_features@),
            display: self.display,
            debug_int_firehose: self.debug_int_firehose,
            debug_mmu_firehose: self.debug_mmu_firehose,
            debug_cpu_firehose: self.debug_cpu_firehose,
            path: texts_of(self.path@),
        }
    }
}

/// Whether `text` starts with a dash.
fn starts_with_dash(text: &String) -> (r: bool)
    ensures
        r == looks_like_flag(text@),
{
    let slice = text.as_str();
    if slice.is_empty() {
        false
    } else {
        slice.get_char(0) == '-'
    }
}

/// Takes the one value out of `values`.
fn take_single(values: Vec<String>) -> (r: Option<String>)
    requires
        values@.len() <= 1,
    ensures
        text_of(r) == single(texts_of(values@)),
{
    let mut values = values;
    values.pop()
}

/// Takes the one name out of `values`.
fn take_platform(values: Vec<String>) -> (r: Option<Platform>)
    requires
        values@.len() <= 1,
    ensures
        name_of(r) == single(texts_of(values@)),
{
    let mut values = values;
    match values.pop() {
        Some(name) => Some(Platform { name }),
        None => None,
    }
}

/// The subcommand that `argument` names.
fn command_of(argument: &String) -> (r: Option<Command>)
    ensures
        r == command_named(argument@),
{
    if text_is(argument, "dist") {
        Some(Command::Dist)
    } else if text_is(argument, "qemu") {
        Some(Command::Qemu)
    } else if text_is(argument, "boot") {
        Some(Command::Boot)
    } else if text_is(argument, "opensbi") {
        Some(Command::Opensbi)
    } else if text_is(argument, "devicetree") {
        Some(Command::Devicetree)
    } else if text_is(argument, "clean") {
        Some(Command::Clean)
    } else {
        None
    }
}

impl Seen {
    fn new() -> (r: Seen)
        ensures
            r@ == nothing_seen(),
    {
        let r = Seen {
            config: Vec::new(),
            release: Times::Never,
            platform: Vec::new(),
            kernel_features: Vec::new(),
            display: Times::Never,
            debug_int_firehose: Times::Never,
            debug_mmu_firehose: Times::Never,
            debug_cpu_firehose: Times::Never,
            path: Vec::new(),
        };
        assert(r@.config =~= Seq::empty());
        assert(r@.platform =~= Seq::empty());
        assert(r@.kernel_features =~= Seq::empty());
        assert(r@.path =~= Seq::empty());
        r
    }

    /// Reads the value of the flag at `position`.
    fn value(&mut self, args: &Vec<String>, position: usize, flag: FlagName) -> (r: Result<
        usize,
        FlagsError,
    >)
        requires
            position < args.len(),
            flag == FlagName::Config || flag == FlagName::Platform || flag
                == FlagName::KernelFeatures,
        ensures
            match r {
                Ok(next) => next == position + 2 && next <= args.len() && step_value(
                    texts_of(args@),
                    ScanState { position: position as int, literal: false, command: None, seen: old(self)@ },
                    flag,
                ) == Step::Next(
                    ScanState { position: next as int, literal: false, command: None, seen: final(self)@ },
                ),
                Err(error) => final(self)@ == old(self)@ && position + 1 >= args.len() && error@
                    == FlagsErrorModel::ExpectedValue(args@[position as int]@),
            },
    {
        if position + 1 < args.len() {
            let value = &args[position + 1];
            match flag {
                FlagName::Config => push_text(&mut self.config, value),
                FlagName::Platform => push_text(&mut self.platform, value),
                _ => push_text(&mut self.kernel_features, value),
            }
            Ok(position + 2)
        } else {
            Err(FlagsError::ExpectedValue(args[position].clone()))
        }
    }

    /// Reads the flag at `position`.
    fn flag(&mut self, args: &Vec<String>, position: usize, command: Option<Command>) -> (r:
        Result<usize, FlagsError>)
        requires
            position < args.len(),
        ensures
            match r {
                Ok(next) => position < next <= args.len() && step_flag(
                    texts_of(args@),
                    ScanState { position: position as int, literal: false, command, seen: old(self)@ },
                ) == Step::Next(
                    ScanState { position: next as int, literal: false, command, seen: final(self)@ },
                ),
                Err(error) => step_flag(
                    texts_of(args@),
                    ScanState { position: position as int, literal: false, command, seen: old(self)@ },
                ) == Step::Fail(error@),
            },
    {
        let flag = &args[position];
        let builds = match command {
            Some(Command::Dist) | Some(Command::Qemu) | Some(Command::Boot) => true,
            _ => false,
        };
        let opensbi = match command {
            Some(Command::Opensbi) => true,
            _ => false,
        };
        let qemu = match command {
            Some(Command::Qemu) => true,
            _ => false,
        };
        if text_is(flag, "--help") || text_is(flag, "-h") {
            Err(FlagsError::Help)
        } else if builds && text_is(flag, "--config") {
            self.value(args, position, FlagName::Config)
        } else if builds && text_is(flag, "--release") {
            self.release = self.release.again();
            Ok(position + 1)
        } else if (builds || opensbi) && (text_is(flag, "--platform") || text_is(flag, "-p")) {
            self.value(args, position, FlagName::Platform)
        } else if builds && text_is(flag, "--kernel_features") {
            self.value(args, position, FlagName::KernelFeatures)
        } else if qemu && text_is(flag, "--display") {
            self.display = self.display.again();
            Ok(position + 1)
        } else if qemu && text_is(flag, "--debug_int_firehose") {
            self.debug_int_firehose = self.debug_int_firehose.again();
            Ok(position + 1)
        } else if qemu && text_is(flag, "--debug_mmu_firehose") {
            self.debug_mmu_firehose = self.debug_mmu_firehose.again();
            Ok(position + 1)
        } else if qemu && text_is(flag, "--debug_cpu_firehose") {
            self.debug_cpu_firehose = self.debug_cpu_firehose.again();
            Ok(position + 1)
        } else {
            Err(FlagsError::UnexpectedFlag(flag.clone()))
        }
    }

    /// The flags of a subcommand that builds a distribution.
    fn build(self) -> (r: Result<Dist, FlagsError>)
        ensures
            match r {
                Ok(dist) => build_flags(self@) == Ok::<BuildFlags, FlagsErrorModel>(dist@),
                Err(error) => build_flags(self@) == Err::<BuildFlags, FlagsErrorModel>(error@),
            },
    {
        if self.config.len() > 1 {
            Err(FlagsError::SpecifiedMoreThanOnce(FlagName::Config))
        } else if self.release == Times::Repeated {
            Err(FlagsError::SpecifiedMoreThanOnce(FlagName::Release))
        } else if self.platform.len() > 1 {
            Err(FlagsError::SpecifiedMoreThanOnce(FlagName::Platform))
        } else if self.kernel_features.len() > 1 {
            Err(FlagsError::SpecifiedMoreThanOnce(FlagName::KernelFeatures))
        } else {
            Ok(
                Dist {
                    config: take_single(self.config),
                    release: self.release == Times::Once,
                    platform: take_platform(self.platform),
                    kernel_features: take_single(self.kernel_features),
                },
            )
        }
    }
}

/// What a command line that was read to its end says.
fn finish_task(command: Option<Command>, seen: Seen) -> (r: Result<Task, FlagsError>)
    ensures
        outcome_of(r) == finish(command, seen@),
{
    match command {
        None => Err(FlagsError::SubcommandRequired),
        Some(Command::Dist) => match seen.build() {
            Ok(dist) => Ok(Task { subcommand: TaskCmd::Dist(dist) }),
            Err(error) => Err(error),
        },
        Some(Command::Qemu) => {
            let display = seen.display;
            let debug_int_firehose = seen.debug_int_firehose;
            let debug_mmu_firehose = seen.debug_mmu_firehose;
            let debug_cpu_firehose = seen.debug_cpu_firehose;
            match seen.build() {
                Err(error) => Err(error),
                Ok(dist) => if display == Times::Repeated {
                    Err(FlagsError::SpecifiedMoreThanOnce(FlagName::Display))
                } else if debug_int_firehose == Times::Repeated {
                    Err(FlagsError::SpecifiedMoreThanOnce(FlagName::DebugIntFirehose))
                } else if debug_mmu_firehose == Times::Repeated {
                    Err(FlagsError::SpecifiedMoreThanOnce(FlagName::DebugMmuFirehose))
                } else if debug_cpu_firehose == Times::Repeated {
                    Err(FlagsError::SpecifiedMoreThanOnce(FlagName::DebugCpuFirehose))
                } else {
                    Ok(
                        Task {
                            subcommand: TaskCmd::Qemu(
                                Qemu {
                                    config: dist.config,
                                    release: dist.release,
                                    platform: dist.platform,
                                    kernel_features: dist.kernel_features,
                                    display: display == Times::Once,
                                    debug_int_firehose: debug_int_firehose == Times::Once,
                                    debug_mmu_firehose: debug_mmu_firehose == Times::Once,
                                    debug_cpu_firehose: debug_cpu_firehose == Times::Once,
                                },
                            ),
                        },
                    )
                },
            }
        },
        Some(Command::Boot) => match seen.build() {
            Ok(dist) => Ok(
                Task {
                    subcommand: TaskCmd::Boot(
                        Boot {
                            config: dist.config,
                            release: dist.release,
                            platform: dist.platform,
                            kernel_features: dist.kernel_features,
                        },
                    ),
                },
            ),
            Err(error) => Err(error),
        },
        Some(Command::Opensbi) => if seen.platform.len() > 1 {
            Err(FlagsError::SpecifiedMoreThanOnce(FlagName::Platform))
        } else {
            Ok(Task { subcommand: TaskCmd::Opensbi(Opensbi { platform: take_platform(seen.platform) }) })
        },
        Some(Command::Devicetree) => {
            let mut paths = seen.path;
            if paths.len() > 1 {
                Err(FlagsError::SpecifiedMoreThanOnce(FlagName::Path))
            } else {
                match paths.pop() {
                    Some(path) => Ok(Task { subcommand: TaskCmd::Devicetree(Devicetree { path }) }),
                    None => Err(FlagsError::Required(FlagName::Path)),
                }
            }
        },
        Some(Command::Clean) => Ok(Task { subcommand: TaskCmd::Clean(Clean) }),
    }
}

/// The arguments of a process without the name of the program, which comes
/// first.
pub open spec fn without_program(args: Seq<Seq<char>>) -> Seq<Seq<char>> {
    if args.len() == 0 {
        args
    } else {
        args.skip(1)
    }
}

/// The status that a process ends with where its command line is rejected:
/// 0 where help was asked for, and 2 for a mistake.
pub open spec fn exit_status(error: FlagsErrorModel) -> i32 {
    if error is Help {
        0
    } else {
        2
    }
}

/// What a program does once its command line is read.
#[derive(Debug, PartialEq, Eq)]
pub enum Startup {
    /// Carry out the task.
    Run(Task),
    /// Report `error` and end with the status `status`.
    Exit { status: i32, error: FlagsError },
}

impl Task {
    /// Reads the arguments of a process, of which the first is the name of
    /// the program, and says what the program is to do: carry out the task
    /// that they describe, or end, with status 0 where help was asked for and
    /// with status 2 where they are mistaken.
    pub fn from_env_or_exit(args: Vec<String>) -> (r: Startup)
        ensures
            match r {
                Startup::Run(task) => parse(without_program(texts_of(args@))) == Ok::<
                    TaskModel,
                    FlagsErrorModel,
                >(task@),
                Startup::Exit { status, error } => parse(without_program(texts_of(args@))) == Err::<
                    TaskModel,
                    FlagsErrorModel,
                >(error@) && status == exit_status(error@),
            },
    {
        match Task::from_env(args) {
            Ok(task) => Startup::Run(task),
            Err(error) => {
                let status: i32 = match error {
                    FlagsError::Help => 0,
                    _ => 2,
                };
                Startup::Exit { status, error }
            },
        }
    }

    /// Reads the arguments of a process, of which the first is the name of
    /// the program.
    pub fn from_env(args: Vec<String>) -> (r: Result<Task, FlagsError>)
        ensures
            outcome_of(r) == parse(without_program(texts_of(args@))),
    {
        let ghost given = texts_of(args@);
        let mut args = args;
        if args.len() > 0 {
            args.remove(0);
            assert(texts_of(args@) =~= without_program(given));
        }
        Task::from_vec(args)
    }

    /// Reads the arguments of a command line, without the name of the
    /// program.
    pub fn from_vec(args: Vec<String>) -> (r: Result<Task, FlagsError>)
        ensures
            outcome_of(r) == parse(texts_of(args@)),
    {
        let mut seen = Seen::new();
        let mut command: Option<Command> = None;
        let mut literal = false;
        let mut position: usize = 0;
        let ghost texts = texts_of(args@);
        while position < args.len()
            invariant
                position <= args.len(),
                texts == texts_of(args@),
                scan(
                    texts,
                    ScanState { position: position as int, literal, command, seen: seen@ },
                ) == scan(texts, start()),
            decreases args.len() - position,
        {
            let argument = &args[position];
            if !literal && starts_with_dash(argument) {
                if text_is(argument, "--") {
                    literal = true;
                    position += 1;
                } else {
                    match seen.flag(&args, position, command) {
                        Ok(next) => {
                            position = next;
                        },
                        Err(error) => {
                            return Err(error);
                        },
                    }
                }
            } else {
                match command {
                    None => match command_of(argument) {
                        Some(named) => {
                            command = Some(named);
                            position += 1;
                        },
                        None => {
                            return Err(FlagsError::UnexpectedArgument(argument.clone()));
                        },
                    },
                    Some(Command::Devicetree) => if seen.path.len() == 0 {
                        push_text(&mut seen.path, argument);
                        position += 1;
                    } else {
                        return Err(FlagsError::UnexpectedArgument(argument.clone()));
                    },
                    _ => {
                        return Err(FlagsError::UnexpectedArgument(argument.clone()));
                    },
                }
            }
        }
        finish_task(command, seen)
    }
}

/// What a distribution is built from under the flags of a build: the
/// configuration file named by the flags, or the default one, and the other
/// three flags as they are.
pub open spec fn options_of(flags: BuildFlags) -> DistOptionsModel {
    DistOptionsModel {
        config_path: match flags.config {
            Some(path) => path,
            None => default_config_path(),
        },
        platform: flags.platform,
        release: flags.release,
        kernel_features: flags.kernel_features,
    }
}

/// A copy of an optional platform.
fn copy_platform(value: &Option<Platform>) -> (r: Option<Platform>)
    ensures
        name_of(r) == name_of(*value),
{
    match value {
        Some(platform) => Some(Platform { name: platform.name.clone() }),
        None => None,
    }
}

/// The configuration file that the flags name, or the default one.
fn config_path_of(config: &Option<String>) -> (r: String)
    ensures
        r@ == match *config {
            Some(path) => path@,
            None => default_config_path(),
        },
{
    match config {
        Some(path) => path.clone(),
        None => "Poplar.toml".to_owned(),
    }
}

/// What the conversion gives is stated over the texts of the strings, in the
/// contract of `from`: no value is singled out for it here.
impl vstd::std_specs::convert::FromSpecImpl<&Dist> for DistOptions {
    open spec fn obeys_from_spec() -> bool {
        false
    }

    open spec fn from_spec(flags: &Dist) -> DistOptions {
        arbitrary()
    }
}

impl From<&Dist> for DistOptions {
    /// The options that the flags of `task dist` ask for.
    fn from(flags: &Dist) -> (r: DistOptions)
        ensures
            r@ == options_of(flags@),
    {
        DistOptions {
            config_path: config_path_of(&flags.config),
            release: flags.release,
            kernel_features: copy_text(&flags.kernel_features),
            platform: copy_platform(&flags.platform),
        }
    }
}

/// What the conversion gives is stated over the texts of the strings, in the
/// contract of `from`: no value is singled out for it here.
impl vstd::std_specs::convert::FromSpecImpl<&Boot> for DistOptions {
    open spec fn obeys_from_spec() -> bool {
        false
    }

    open spec fn from_spec(flags: &Boot) -> DistOptions {
        arbitrary()
    }
}

impl From<&Boot> for DistOptions {
    /// The options that the flags of `task boot` ask for.
    fn from(flags: &Boot) -> (r: DistOptions)
        ensures
            r@ == options_of(flags@),
    {
        DistOptions {
            config_path: config_path_of(&flags.config),
            release: flags.release,
            kernel_features: copy_text(&flags.kernel_features),
            platform: copy_platform(&flags.platform),
        }
    }
}

/// What the conversion gives is stated over the texts of the strings, in the
/// contract of `from`: no value is singled out for it here.
impl vstd::std_specs::convert::FromSpecImpl<&Qemu> for DistOptions {
    open spec fn obeys_from_spec() -> bool {
        false
    }

    open spec fn from_spec(flags: &Qemu) -> DistOptions {
        arbitrary()
    }
}

impl From<&Qemu> for DistOptions {
    /// The options that the flags of `task qemu` ask for.
    fn from(flags: &Qemu) -> (r: DistOptions)
        ensures
            r@ == options_of(flags@.build),
    {
        DistOptions {
            config_path: config_path_of(&flags.config),
            release: flags.release,
            kernel_features: copy_text(&flags.kernel_features),
            platform: copy_platform(&flags.platform),
        }
    }
}

} // verus!
