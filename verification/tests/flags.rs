use pci_interrupts::flags::{
    Boot, Clean, Devicetree, Dist, DistOptions, FlagName, FlagsError, Opensbi, Platform, Qemu,
    Startup, Task, TaskCmd,
};

fn args(words: &[&str]) -> Vec<String> {
    words.iter().map(|word| word.to_string()).collect()
}

fn parse(words: &[&str]) -> Result<Task, FlagsError> {
    Task::from_vec(args(words))
}

fn platform(name: &str) -> Option<Platform> {
    Some(Platform { name: name.to_string() })
}

fn text(text: &str) -> Option<String> {
    Some(text.to_string())
}

fn plain_dist() -> Dist {
    Dist { config: None, release: false, platform: None, kernel_features: None }
}

#[test]
fn dist_without_flags() {
    assert_eq!(parse(&["dist"]), Ok(Task { subcommand: TaskCmd::Dist(plain_dist()) }));
}

#[test]
fn dist_with_every_flag() {
    let task = parse(&[
        "dist",
        "--release",
        "--config",
        "configs/rv64.toml",
        "-p",
        "rv64_virt",
        "--kernel_features",
        "qemu_exit",
    ]);
    assert_eq!(
        task,
        Ok(Task {
            subcommand: TaskCmd::Dist(Dist {
                config: text("configs/rv64.toml"),
                release: true,
                platform: platform("rv64_virt"),
                kernel_features: text("qemu_exit"),
            })
        })
    );
}

#[test]
fn flags_may_come_in_any_order() {
    let one = parse(&["dist", "--platform", "x64", "--release"]);
    let other = parse(&["dist", "--release", "--platform", "x64"]);
    assert_eq!(one, other);
    assert_eq!(
        one,
        Ok(Task {
            subcommand: TaskCmd::Dist(Dist { release: true, platform: platform("x64"), ..plain_dist() })
        })
    );
}

#[test]
fn qemu_with_its_own_flags() {
    let task = parse(&["qemu", "--display", "--debug_mmu_firehose", "--release"]);
    assert_eq!(
        task,
        Ok(Task {
            subcommand: TaskCmd::Qemu(Qemu {
                config: None,
                release: true,
                platform: None,
                kernel_features: None,
                display: true,
                debug_int_firehose: false,
                debug_mmu_firehose: true,
                debug_cpu_firehose: false,
            })
        })
    );
    let task = parse(&["qemu", "--debug_int_firehose", "--debug_cpu_firehose", "-p", "x64"]);
    assert_eq!(
        task,
        Ok(Task {
            subcommand: TaskCmd::Qemu(Qemu {
                config: None,
                release: false,
                platform: platform("x64"),
                kernel_features: None,
                display: false,
                debug_int_firehose: true,
                debug_mmu_firehose: false,
                debug_cpu_firehose: true,
            })
        })
    );
}

#[test]
fn boot_takes_the_flags_of_a_build() {
    let task = parse(&["boot", "--config", "a.toml", "--kernel_features", "x,y"]);
    assert_eq!(
        task,
        Ok(Task {
            subcommand: TaskCmd::Boot(Boot {
                config: text("a.toml"),
                release: false,
                platform: None,
                kernel_features: text("x,y"),
            })
        })
    );
}

#[test]
fn opensbi_takes_a_platform_only() {
    assert_eq!(
        parse(&["opensbi"]),
        Ok(Task { subcommand: TaskCmd::Opensbi(Opensbi { platform: None }) })
    );
    assert_eq!(
        parse(&["opensbi", "--platform", "mq_pro"]),
        Ok(Task { subcommand: TaskCmd::Opensbi(Opensbi { platform: platform("mq_pro") }) })
    );
    assert_eq!(
        parse(&["opensbi", "--release"]),
        Err(FlagsError::UnexpectedFlag("--release".to_string()))
    );
}

#[test]
fn devicetree_needs_a_path() {
    assert_eq!(
        parse(&["devicetree", "board.dts"]),
        Ok(Task { subcommand: TaskCmd::Devicetree(Devicetree { path: "board.dts".to_string() }) })
    );
    assert_eq!(parse(&["devicetree"]), Err(FlagsError::Required(FlagName::Path)));
    assert_eq!(
        parse(&["devicetree", "a.dts", "b.dts"]),
        Err(FlagsError::UnexpectedArgument("b.dts".to_string()))
    );
}

#[test]
fn clean_takes_nothing() {
    assert_eq!(parse(&["clean"]), Ok(Task { subcommand: TaskCmd::Clean(Clean) }));
    assert_eq!(parse(&["clean", "all"]), Err(FlagsError::UnexpectedArgument("all".to_string())));
    assert_eq!(
        parse(&["clean", "--release"]),
        Err(FlagsError::UnexpectedFlag("--release".to_string()))
    );
}

#[test]
fn subcommand_is_required() {
    assert_eq!(parse(&[]), Err(FlagsError::SubcommandRequired));
    assert_eq!(parse(&["--"]), Err(FlagsError::SubcommandRequired));
}

#[test]
fn unknown_subcommand_is_an_unexpected_argument() {
    assert_eq!(parse(&["build"]), Err(FlagsError::UnexpectedArgument("build".to_string())));
    assert_eq!(parse(&[""]), Err(FlagsError::UnexpectedArgument("".to_string())));
    assert_eq!(parse(&["Dist"]), Err(FlagsError::UnexpectedArgument("Dist".to_string())));
}

#[test]
fn second_subcommand_is_an_unexpected_argument() {
    assert_eq!(parse(&["dist", "qemu"]), Err(FlagsError::UnexpectedArgument("qemu".to_string())));
}

#[test]
fn flag_before_the_subcommand_is_unexpected() {
    assert_eq!(
        parse(&["--release", "dist"]),
        Err(FlagsError::UnexpectedFlag("--release".to_string()))
    );
}

#[test]
fn flag_of_another_subcommand_is_unexpected() {
    assert_eq!(
        parse(&["dist", "--display"]),
        Err(FlagsError::UnexpectedFlag("--display".to_string()))
    );
    assert_eq!(
        parse(&["boot", "--debug_int_firehose"]),
        Err(FlagsError::UnexpectedFlag("--debug_int_firehose".to_string()))
    );
    assert_eq!(parse(&["dist", "-"]), Err(FlagsError::UnexpectedFlag("-".to_string())));
    assert_eq!(
        parse(&["dist", "--config=a.toml"]),
        Err(FlagsError::UnexpectedFlag("--config=a.toml".to_string()))
    );
}

#[test]
fn help_is_known_everywhere() {
    assert_eq!(parse(&["--help"]), Err(FlagsError::Help));
    assert_eq!(parse(&["-h"]), Err(FlagsError::Help));
    assert_eq!(parse(&["dist", "--release", "-h"]), Err(FlagsError::Help));
    assert_eq!(parse(&["clean", "--help", "--bogus"]), Err(FlagsError::Help));
    assert_eq!(parse(&["devicetree", "--help"]), Err(FlagsError::Help));
}

#[test]
fn first_mistake_is_reported() {
    assert_eq!(
        parse(&["dist", "--bogus", "--help"]),
        Err(FlagsError::UnexpectedFlag("--bogus".to_string()))
    );
    assert_eq!(
        parse(&["dist", "--release", "--release", "extra"]),
        Err(FlagsError::UnexpectedArgument("extra".to_string()))
    );
}

#[test]
fn flag_with_value_needs_one() {
    assert_eq!(
        parse(&["dist", "--config"]),
        Err(FlagsError::ExpectedValue("--config".to_string()))
    );
    assert_eq!(parse(&["dist", "-p"]), Err(FlagsError::ExpectedValue("-p".to_string())));
    assert_eq!(
        parse(&["qemu", "--release", "--platform"]),
        Err(FlagsError::ExpectedValue("--platform".to_string()))
    );
    assert_eq!(
        parse(&["boot", "--kernel_features"]),
        Err(FlagsError::ExpectedValue("--kernel_features".to_string()))
    );
}

#[test]
fn value_is_taken_whatever_it_looks_like() {
    assert_eq!(
        parse(&["dist", "--config", "--release"]),
        Ok(Task { subcommand: TaskCmd::Dist(Dist { config: text("--release"), ..plain_dist() }) })
    );
    assert_eq!(
        parse(&["dist", "--config", "--", "--release"]),
        Ok(Task {
            subcommand: TaskCmd::Dist(Dist { config: text("--"), release: true, ..plain_dist() })
        })
    );
    assert_eq!(
        parse(&["dist", "-p", "--help"]),
        Ok(Task { subcommand: TaskCmd::Dist(Dist { platform: platform("--help"), ..plain_dist() }) })
    );
}

#[test]
fn flag_given_twice_is_rejected() {
    assert_eq!(
        parse(&["dist", "--release", "--release"]),
        Err(FlagsError::SpecifiedMoreThanOnce(FlagName::Release))
    );
    assert_eq!(
        parse(&["dist", "--config", "a", "--config", "b"]),
        Err(FlagsError::SpecifiedMoreThanOnce(FlagName::Config))
    );
    assert_eq!(
        parse(&["boot", "-p", "a", "--platform", "b"]),
        Err(FlagsError::SpecifiedMoreThanOnce(FlagName::Platform))
    );
    assert_eq!(
        parse(&["qemu", "--kernel_features", "a", "--kernel_features", "b"]),
        Err(FlagsError::SpecifiedMoreThanOnce(FlagName::KernelFeatures))
    );
    assert_eq!(
        parse(&["qemu", "--display", "--display", "--display"]),
        Err(FlagsError::SpecifiedMoreThanOnce(FlagName::Display))
    );
    assert_eq!(
        parse(&["qemu", "--debug_int_firehose", "--debug_int_firehose"]),
        Err(FlagsError::SpecifiedMoreThanOnce(FlagName::DebugIntFirehose))
    );
    assert_eq!(
        parse(&["qemu", "--debug_mmu_firehose", "--debug_mmu_firehose"]),
        Err(FlagsError::SpecifiedMoreThanOnce(FlagName::DebugMmuFirehose))
    );
    assert_eq!(
        parse(&["qemu", "--debug_cpu_firehose", "--debug_cpu_firehose"]),
        Err(FlagsError::SpecifiedMoreThanOnce(FlagName::DebugCpuFirehose))
    );
    assert_eq!(
        parse(&["opensbi", "-p", "a", "-p", "b"]),
        Err(FlagsError::SpecifiedMoreThanOnce(FlagName::Platform))
    );
}

#[test]
fn repeated_flags_are_reported_in_the_order_of_the_fields() {
    assert_eq!(
        parse(&["qemu", "--display", "--display", "--release", "--release"]),
        Err(FlagsError::SpecifiedMoreThanOnce(FlagName::Release))
    );
    assert_eq!(
        parse(&["dist", "-p", "a", "-p", "b", "--config", "a", "--config", "b"]),
        Err(FlagsError::SpecifiedMoreThanOnce(FlagName::Config))
    );
    assert_eq!(
        parse(&[
            "qemu",
            "--debug_cpu_firehose",
            "--debug_cpu_firehose",
            "--debug_int_firehose",
            "--debug_int_firehose"
        ]),
        Err(FlagsError::SpecifiedMoreThanOnce(FlagName::DebugIntFirehose))
    );
}

#[test]
fn nothing_behind_double_dash_is_a_flag() {
    assert_eq!(
        parse(&["--", "dist"]),
        Ok(Task { subcommand: TaskCmd::Dist(plain_dist()) })
    );
    assert_eq!(
        parse(&["devicetree", "--", "--release"]),
        Ok(Task { subcommand: TaskCmd::Devicetree(Devicetree { path: "--release".to_string() }) })
    );
    assert_eq!(
        parse(&["devicetree", "--", "--"]),
        Ok(Task { subcommand: TaskCmd::Devicetree(Devicetree { path: "--".to_string() }) })
    );
    assert_eq!(
        parse(&["dist", "--", "--release"]),
        Err(FlagsError::UnexpectedArgument("--release".to_string()))
    );
    assert_eq!(
        parse(&["dist", "--release", "--"]),
        Ok(Task { subcommand: TaskCmd::Dist(Dist { release: true, ..plain_dist() }) })
    );
    assert_eq!(parse(&["--", "--help"]), Err(FlagsError::UnexpectedArgument("--help".to_string())));
}

#[test]
fn from_env_skips_the_program_name() {
    assert_eq!(
        Task::from_env(args(&["xtask", "dist", "--release"])),
        Ok(Task { subcommand: TaskCmd::Dist(Dist { release: true, ..plain_dist() }) })
    );
    assert_eq!(
        Task::from_env(args(&["dist"])),
        Err(FlagsError::SubcommandRequired)
    );
    assert_eq!(Task::from_env(args(&[])), Err(FlagsError::SubcommandRequired));
    assert_eq!(
        Task::from_env(args(&["--help", "clean"])),
        Ok(Task { subcommand: TaskCmd::Clean(Clean) })
    );
}

#[test]
fn accepted_command_line_runs() {
    assert_eq!(
        Task::from_env_or_exit(args(&["xtask", "clean"])),
        Startup::Run(Task { subcommand: TaskCmd::Clean(Clean) })
    );
}

#[test]
fn help_exits_with_status_zero() {
    assert_eq!(
        Task::from_env_or_exit(args(&["xtask", "--help"])),
        Startup::Exit { status: 0, error: FlagsError::Help }
    );
}

#[test]
fn mistake_exits_with_status_two() {
    assert_eq!(
        Task::from_env_or_exit(args(&["xtask"])),
        Startup::Exit { status: 2, error: FlagsError::SubcommandRequired }
    );
    assert_eq!(
        Task::from_env_or_exit(args(&["xtask", "dist", "--fast"])),
        Startup::Exit { status: 2, error: FlagsError::UnexpectedFlag("--fast".to_string()) }
    );
    assert_eq!(
        Task::from_env_or_exit(args(&["xtask", "devicetree"])),
        Startup::Exit { status: 2, error: FlagsError::Required(FlagName::Path) }
    );
    assert_eq!(
        Task::from_env_or_exit(args(&["xtask", "qemu", "--config"])),
        Startup::Exit { status: 2, error: FlagsError::ExpectedValue("--config".to_string()) }
    );
    assert_eq!(
        Task::from_env_or_exit(args(&["xtask", "run"])),
        Startup::Exit { status: 2, error: FlagsError::UnexpectedArgument("run".to_string()) }
    );
    assert_eq!(
        Task::from_env_or_exit(args(&["xtask", "boot", "--release", "--release"])),
        Startup::Exit { status: 2, error: FlagsError::SpecifiedMoreThanOnce(FlagName::Release) }
    );
}

#[test]
fn options_default_to_the_standard_configuration_file() {
    let options = DistOptions::from(&plain_dist());
    assert_eq!(
        options,
        DistOptions {
            config_path: "Poplar.toml".to_string(),
            platform: None,
            release: false,
            kernel_features: None,
        }
    );
}

#[test]
fn options_keep_what_the_flags_say() {
    let dist = Dist {
        config: text("other.toml"),
        release: true,
        platform: platform("rv64_virt"),
        kernel_features: text("a,b"),
    };
    let expected = DistOptions {
        config_path: "other.toml".to_string(),
        platform: platform("rv64_virt"),
        release: true,
        kernel_features: text("a,b"),
    };
    assert_eq!(DistOptions::from(&dist), expected);
    let boot = Boot {
        config: text("other.toml"),
        release: true,
        platform: platform("rv64_virt"),
        kernel_features: text("a,b"),
    };
    assert_eq!(DistOptions::from(&boot), expected);
    let qemu = Qemu {
        config: text("other.toml"),
        release: true,
        platform: platform("rv64_virt"),
        kernel_features: text("a,b"),
        display: true,
        debug_int_firehose: false,
        debug_mmu_firehose: true,
        debug_cpu_firehose: false,
    };
    assert_eq!(DistOptions::from(&qemu), expected);
}

#[test]
fn options_of_boot_and_qemu_default_too() {
    let boot = Boot { config: None, release: true, platform: None, kernel_features: None };
    assert_eq!(DistOptions::from(&boot).config_path, "Poplar.toml");
    let qemu = Qemu {
        config: None,
        release: false,
        platform: None,
        kernel_features: None,
        display: false,
        debug_int_firehose: false,
        debug_mmu_firehose: false,
        debug_cpu_firehose: false,
    };
    assert_eq!(DistOptions::from(&qemu).config_path, "Poplar.toml");
}

#[test]
fn flags_are_named_as_they_are_written() {
    assert_eq!(FlagName::Config.name(), "--config");
    assert_eq!(FlagName::Release.name(), "--release");
    assert_eq!(FlagName::Platform.name(), "--platform");
    assert_eq!(FlagName::KernelFeatures.name(), "--kernel_features");
    assert_eq!(FlagName::Display.name(), "--display");
    assert_eq!(FlagName::DebugIntFirehose.name(), "--debug_int_firehose");
    assert_eq!(FlagName::DebugMmuFirehose.name(), "--debug_mmu_firehose");
    assert_eq!(FlagName::DebugCpuFirehose.name(), "--debug_cpu_firehose");
    assert_eq!(FlagName::Path.name(), "path");
}
