use sailfish::Capabilities;
use sailfish::CommandLine;
use sailfish::Error;
use sailfish::help_text;
use sailfish::parse_command_line;
use sailfish::version_text;

fn args(list: &[&str]) -> Vec<String> {
    list.iter().map(|s| s.to_string()).collect()
}

fn full_caps() -> Capabilities {
    Capabilities { has_omp: true, has_gpu: true }
}

fn parse_ok(list: &[&str]) -> CommandLine {
    parse_command_line(full_caps(), &args(list)).unwrap()
}

fn parse_err(list: &[&str]) -> String {
    match parse_command_line(full_caps(), &args(list)) {
        Err(Error::CommandLineParse(m)) => m,
        other => panic!("expected a parse error, got {:?}", other),
    }
}

fn parse_info(list: &[&str]) -> String {
    match parse_command_line(full_caps(), &args(list)) {
        Err(Error::PrintUserInformation(m)) => m,
        other => panic!("expected informational output, got {:?}", other),
    }
}

#[test]
fn defaults_when_no_arguments() {
    let c = parse_ok(&[]);
    assert!(!c.use_omp);
    assert!(!c.use_gpu);
    assert_eq!(c.resolution, 1024);
    assert_eq!(c.fold, 10);
    assert_eq!(c.checkpoint_interval, "1.0");
    assert_eq!(c.outdir, ".");
    assert_eq!(c.end_time, "1.0");
    assert_eq!(c.rk_order, 1);
    assert_eq!(c.cfl_number, "0.2");
}

#[test]
fn equivalent_flag_value_forms_give_identical_configs() {
    let a = parse_ok(&["-n", "2048"]);
    let b = parse_ok(&["--resolution=2048"]);
    let c = parse_ok(&["-n2048"]);
    let d = parse_ok(&["--res", "2048"]);
    assert_eq!(a.resolution, 2048);
    assert!(a == b);
    assert!(a == c);
    assert!(a == d);
}

#[test]
fn equivalent_forms_for_float_field() {
    let a = parse_ok(&["-c", "0.25"]);
    let b = parse_ok(&["--checkpoint=0.25"]);
    let c = parse_ok(&["-c0.25"]);
    assert_eq!(a.checkpoint_interval, "0.25");
    assert!(a == b);
    assert!(a == c);
}

#[test]
fn rk_order_accepts_one_two_three() {
    assert_eq!(parse_ok(&["-r", "1"]).rk_order, 1);
    assert_eq!(parse_ok(&["-r", "2"]).rk_order, 2);
    assert_eq!(parse_ok(&["--rk-order", "3"]).rk_order, 3);
}

#[test]
fn rk_order_zero_fails() {
    assert_eq!(parse_err(&["-r", "0"]), "rk-order must be 1, 2, or 3");
}

#[test]
fn rk_order_four_fails() {
    assert_eq!(parse_err(&["-r", "4"]), "rk-order must be 1, 2, or 3");
    assert_eq!(parse_err(&["--rk-order=4"]), "rk-order must be 1, 2, or 3");
}

#[test]
fn rk_order_non_numeric_fails() {
    assert_eq!(parse_err(&["-r", "abc"]), "rk-order abc: invalid digit found in string");
}

#[test]
fn exclusive_backends_fail_in_either_order() {
    let expected = "--use-omp (-p) and --use-gpu (-g) are mutually exclusive";
    assert_eq!(parse_err(&["-p", "-g"]), expected);
    assert_eq!(parse_err(&["-g", "-p"]), expected);
    assert_eq!(parse_err(&["--use-omp", "-n", "64", "--use-gpu"]), expected);
}

#[test]
fn single_backend_flags_are_recorded() {
    let c = parse_ok(&["-p"]);
    assert!(c.use_omp && !c.use_gpu);
    let c = parse_ok(&["--use-gpu"]);
    assert!(!c.use_omp && c.use_gpu);
}

#[test]
fn dangling_flag_fails() {
    assert_eq!(parse_err(&["-n"]), "missing argument");
    assert_eq!(parse_err(&["--cfl"]), "missing argument");
    assert_eq!(parse_err(&["-n", "64", "-e"]), "missing argument");
}

#[test]
fn unrecognized_option_names_the_token() {
    assert_eq!(parse_err(&["--bogus"]), "unrecognized option --bogus");
    assert_eq!(parse_err(&["-n", "64", "--nope"]), "unrecognized option --nope");
}

#[test]
fn glued_unknown_short_flag_is_split_before_rejection() {
    assert_eq!(parse_err(&["-xfoo"]), "unrecognized option -x");
}

#[test]
fn flags_absent_from_capabilities_are_unrecognized() {
    let caps = Capabilities { has_omp: false, has_gpu: true };
    match parse_command_line(caps, &args(&["-p"])) {
        Err(Error::CommandLineParse(m)) => assert_eq!(m, "unrecognized option -p"),
        other => panic!("expected a parse error, got {:?}", other),
    }
}

#[test]
fn help_short_circuits_even_before_garbage() {
    let m = parse_info(&["--help", "--bogus", "-r", "9"]);
    assert_eq!(m, help_text(full_caps()));
}

#[test]
fn help_short_form() {
    assert_eq!(parse_info(&["-h"]), help_text(full_caps()));
}

#[test]
fn version_short_circuits() {
    assert_eq!(parse_info(&["--version"]), "sailfish 0.1.0\n");
    assert_eq!(parse_info(&["--version", "--nonsense"]), version_text());
}

#[test]
fn help_text_lists_backends_only_when_present() {
    let both = help_text(full_caps());
    assert!(both.contains("-p|--use-omp"));
    assert!(both.contains("-g|--use-gpu"));
    let neither = help_text(Capabilities { has_omp: false, has_gpu: false });
    assert!(!neither.contains("-p|--use-omp"));
    assert!(!neither.contains("-g|--use-gpu"));
    assert!(neither.contains("--cfl"));
}

#[test]
fn fold_and_outdir_are_set() {
    let c = parse_ok(&["-f", "25", "-o", "data"]);
    assert_eq!(c.fold, 25);
    assert_eq!(c.outdir, "data");
    let c = parse_ok(&["--outdir=out/run1"]);
    assert_eq!(c.outdir, "out/run1");
}

#[test]
fn float_fields_accept_literal_grammar() {
    let c = parse_ok(&["-e", "1e3", "--cfl", ".5", "-c", "+2.75"]);
    assert_eq!(c.end_time, "1e3");
    assert_eq!(c.cfl_number, ".5");
    assert_eq!(c.checkpoint_interval, "+2.75");
    let c = parse_ok(&["-e", "inf", "--cfl", "NaN"]);
    assert_eq!(c.end_time, "inf");
    assert_eq!(c.cfl_number, "NaN");
}

#[test]
fn float_fields_reject_bad_literals() {
    assert_eq!(parse_err(&["-c", "abc"]), "checkpoint abc: invalid float literal");
    assert_eq!(parse_err(&["-e", "1e"]), "end-time 1e: invalid float literal");
    assert_eq!(parse_err(&["--cfl", "."]), "cfl .: invalid float literal");
    assert_eq!(parse_err(&["-e", "1.2.3"]), "end-time 1.2.3: invalid float literal");
}

#[test]
fn integer_fields_report_standard_errors() {
    assert_eq!(
        parse_err(&["-n", "99999999999"]),
        "resolution 99999999999: number too large to fit in target type"
    );
    assert_eq!(
        parse_err(&["--resolution="]),
        "resolution : cannot parse integer from empty string"
    );
    assert_eq!(parse_err(&["-f", "12x"]), "fold 12x: invalid digit found in string");
}

#[test]
fn later_values_overwrite_earlier_ones() {
    let c = parse_ok(&["-n", "64", "-n", "128"]);
    assert_eq!(c.resolution, 128);
}

#[test]
fn error_equality_compares_messages() {
    let a = parse_command_line(full_caps(), &args(&["--bogus"])).unwrap_err();
    let b = parse_command_line(full_caps(), &args(&["--bogus"])).unwrap_err();
    assert!(a == b);
    let c = parse_command_line(full_caps(), &args(&["-n"])).unwrap_err();
    assert!(!(a == c));
}
