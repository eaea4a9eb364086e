use factotum_server::args::{
    check_factotum_bin_arg, check_ip_arg, get_log_level, is_a_valid_ip, LogLevel,
};

#[test]
fn check_factotum_bin_arg_fail() {
    let expected = Err("Invalid path for Factotum binary at: '/fake/path'".to_string());
    let actual = check_factotum_bin_arg("/fake/path");
    assert_eq!(expected, actual);
}

#[test]
fn check_factotum_bin_arg_success() {
    let expected = Ok(());
    let actual = check_factotum_bin_arg(".");
    assert_eq!(expected, actual);
}

#[test]
fn check_ip_arg_fail() {
    let expected = Err("Invalid IP address: [NOT.AN.IP] - Regex mismatch".to_string());
    let actual = check_ip_arg(&Some("NOT.AN.IP".to_string()));
    assert_eq!(expected, actual);
}

#[test]
fn check_ip_arg_success_with_valid_ip() {
    let expected = Ok(());
    let actual = check_ip_arg(&Some("255.255.255.255".to_string()));
    assert_eq!(expected, actual);
}

#[test]
fn check_ip_arg_success_with_none() {
    let expected = Ok(());
    let actual = check_ip_arg(&None);
    assert_eq!(expected, actual);
}

#[test]
fn is_a_valid_ip_fail() {
    let result = is_a_valid_ip("NOT.AN.IP");
    assert!(result == false);
}

#[test]
fn is_a_valid_ip_success() {
    let result = is_a_valid_ip("255.255.255.255");
    assert!(result == true);
}

#[test]
fn get_log_level_fail() {
    let expected =
        Err("Unknown log level: 'NOT A LOG LEVEL'\nPlease select a valid log level.".to_string());
    let actual = get_log_level(&Some("NOT A LOG LEVEL".to_string()));
    assert_eq!(expected, actual);
}

#[test]
fn get_log_level_success_valid_level() {
    let expected = Ok(LogLevel::Debug);
    let actual = get_log_level(&Some("DEBUG".to_string()));
    assert_eq!(expected, actual);
}

#[test]
fn get_log_level_success_with_none() {
    let expected = Ok(LogLevel::Warn);
    let actual = get_log_level(&None);
    assert_eq!(expected, actual);
}
