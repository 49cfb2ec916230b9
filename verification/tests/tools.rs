use sensei_lib::errors::SenseiError;
use sensei_lib::tools::nmap::NmapTool;
use sensei_lib::tools::system::{shorten, SystemTool, MAX_OUTPUT_BYTES};
use sensei_lib::tools::CommandOutput;

fn ended(success: bool, stdout: &str, stderr: &str) -> Result<CommandOutput, String> {
    Ok(CommandOutput { success, stdout: stdout.to_string(), stderr: stderr.to_string() })
}

fn tool_error(r: Result<String, SenseiError>) -> String {
    match r {
        Err(SenseiError::Tool(detail)) => detail,
        other => panic!("a tool error was expected, not {:?}", other),
    }
}

#[test]
fn tools_test_nmap_sanitization_works() {
    let tool = NmapTool;
    assert!(tool.check_target("localhost").is_ok());
    if let Err(e) = tool.plan("nmap", "localhost") {
        assert!(!e.message().contains("Invalid characters"));
    }

    let res = tool.check_target("localhost; ls");
    assert!(res.is_err());
    assert!(res.unwrap_err().message().contains("Invalid characters"));
    assert!(tool.check_target("localhost && echo hacked").is_err());
    assert!(tool.check_target("$(whoami)").is_err());
    assert!(tool.check_target("`whoami`").is_err());
    assert!(tool.plan("nmap", "localhost; ls").is_err());
}

#[test]
fn every_forbidden_character_is_refused() {
    let tool = NmapTool;
    for c in [';', '&', '|', '$', '`', '"', '\'', '(', ')'] {
        let target = format!("host{}name", c);
        let e = tool.check_target(&target).unwrap_err();
        assert_eq!(
            e.message(),
            "Tool execution error: Invalid characters in target name. Please provide a valid hostname or IP address."
        );
    }
    for target in ["", "10.0.0.5", "example.com", "host name", "a-b_c:80/24", "h\u{f6}st", "a<b>c"] {
        assert!(tool.check_target(target).is_ok(), "{}", target);
    }
}

#[test]
fn scan_is_a_fast_scan_of_the_target() {
    let tool = NmapTool;
    assert_eq!(tool.name(), "nmap");
    let inv = tool.plan("/usr/bin/nmap", "10.0.0.5").unwrap();
    assert_eq!(inv.program, "/usr/bin/nmap");
    assert_eq!(inv.args, vec!["-F".to_string(), "10.0.0.5".to_string()]);
}

#[test]
fn scan_report_follows_the_exit() {
    let tool = NmapTool;
    assert_eq!(tool.report(ended(true, "PORT 22 open\n", "warn")).unwrap(), "PORT 22 open\n");
    assert_eq!(tool_error(tool.report(ended(false, "out", "no route"))), "Nmap command failed: no route");
    assert_eq!(
        tool_error(tool.report(Err("No such file or directory (os error 2)".to_string()))),
        "Failed to execute nmap command: No such file or directory (os error 2)"
    );
}

#[test]
fn tools_test_system_allowlist_works() {
    let tool = SystemTool;
    assert!(tool.plan("memory").is_ok());
    assert!(tool.plan("uptime").is_ok());
    assert!(tool.plan("whoami").is_ok());

    assert!(tool.plan("reboot").is_err());
    assert!(tool.plan("ls -la").is_err());
    assert!(tool.plan("cat /etc/passwd").is_err());
    assert!(tool.plan("unknown_cmd").is_err());

    let res = tool.plan("reboot");
    assert!(res.unwrap_err().message().contains("Unknown or disallowed"));
}

#[test]
fn allowed_keys_stand_for_fixed_commands() {
    let tool = SystemTool;
    assert_eq!(tool.name(), "system_diagnostic");
    let no_args: Vec<String> = Vec::new();
    for (key, program, args) in [
        ("uptime", "uptime", no_args.clone()),
        (" disk\n", "df", vec!["-h".to_string()]),
        ("memory", "free", vec!["-h".to_string()]),
        ("\twhoami ", "whoami", no_args.clone()),
        ("date", "date", no_args.clone()),
    ] {
        let inv = tool.plan(key).unwrap();
        assert_eq!(inv.program, program);
        assert_eq!(inv.args, args);
    }
    let e = tool.plan(" Uptime ").unwrap_err();
    assert_eq!(
        e.message(),
        "Tool execution error: Unknown or disallowed diagnostic command: ' Uptime '. Allowed: uptime, disk, memory, whoami, date"
    );
    assert!(tool.plan("").is_err());
    assert!(tool.plan("up time").is_err());
}

#[test]
fn diagnostic_report_follows_the_exit() {
    let tool = SystemTool;
    assert_eq!(tool.report("uptime", ended(true, " 10:00 up 3 days\n", "")).unwrap(), " 10:00 up 3 days\n");
    assert_eq!(tool_error(tool.report("df", ended(false, "x", "denied"))), "Command 'df' failed: denied");
    assert_eq!(
        tool_error(tool.report("free", Err("not found".to_string()))),
        "Failed to run system command 'free': not found"
    );
}

#[test]
fn long_output_is_cut_at_the_limit() {
    assert_eq!(MAX_OUTPUT_BYTES, 4000);
    let mark = "\n\n...[Output truncated by Sensei Safety Layer]...";
    let exact = "a".repeat(4000);
    assert_eq!(shorten(&exact), exact);
    assert_eq!(shorten(""), "");
    let over = "a".repeat(4001);
    assert_eq!(shorten(&over), format!("{}{}", exact, mark));
    let long = "b".repeat(10000);
    let mut expected = long.clone();
    expected.truncate(4000);
    expected.push_str(mark);
    assert_eq!(shorten(&long), expected);
    assert_eq!(SystemTool.report("uptime", ended(true, &long, "")).unwrap(), expected);
}

#[test]
fn the_cut_never_splits_a_character() {
    let mark = "\n\n...[Output truncated by Sensei Safety Layer]...";
    // 1333 characters of three bytes take 3999 bytes; the next does not fit.
    let wide = "\u{20ac}".repeat(2000);
    assert_eq!(shorten(&wide), format!("{}{}", "\u{20ac}".repeat(1333), mark));
    let two = "\u{e9}".repeat(2000);
    assert_eq!(shorten(&two), two);
    let two_over = "\u{e9}".repeat(2001);
    assert_eq!(shorten(&two_over), format!("{}{}", "\u{e9}".repeat(2000), mark));
    let four = "\u{1f600}".repeat(1001);
    assert_eq!(shorten(&four), format!("{}{}", "\u{1f600}".repeat(1000), mark));
    let mixed = format!("{}\u{20ac}", "a".repeat(3998));
    assert_eq!(shorten(&mixed), format!("{}{}", "a".repeat(3998), mark));
}
