use oko_desktop::process::{
    process_field_query, read_process_command_line, read_process_field,
    read_process_start_signature, terminate_command, ProcessQuery,
};

fn query(program: &str, args: &[&str]) -> ProcessQuery {
    ProcessQuery { program: program.to_string(), args: args.iter().map(|a| a.to_string()).collect() }
}

#[test]
fn field_query_asks_the_lister_for_one_field_of_one_process() {
    assert_eq!(process_field_query(4711, "pid="), query("ps", &["-p", "4711", "-o", "pid="]));
    assert_eq!(process_field_query(0, ""), query("ps", &["-p", "0", "-o", ""]));
}

#[test]
fn start_signature_query_names_its_field() {
    assert_eq!(read_process_start_signature(4711), query("ps", &["-p", "4711", "-o", "lstart="]));
    assert_eq!(
        read_process_start_signature(4294967295),
        query("ps", &["-p", "4294967295", "-o", "lstart="])
    );
}

#[test]
fn command_line_query_names_its_field() {
    assert_eq!(read_process_command_line(1), query("ps", &["-p", "1", "-o", "command="]));
}

#[test]
fn terminate_command_asks_the_process_to_end() {
    assert_eq!(terminate_command(4711), query("kill", &["-TERM", "4711"]));
}

#[test]
fn process_field_is_the_trimmed_output() {
    assert_eq!(
        read_process_field(true, b"Mon Jan  5 10:11:12 2026\n".to_vec()),
        Some("Mon Jan  5 10:11:12 2026".to_string())
    );
    assert_eq!(
        read_process_field(true, b"  python3 /tmp/backend_sidecar.py --host 127.0.0.1 --port 5000  \n".to_vec()),
        Some("python3 /tmp/backend_sidecar.py --host 127.0.0.1 --port 5000".to_string())
    );
    assert_eq!(read_process_field(true, "étoile\n".as_bytes().to_vec()), Some("étoile".to_string()));
}

#[test]
fn process_field_is_absent_when_the_lister_failed() {
    assert_eq!(read_process_field(false, b"Mon Jan  5 10:11:12 2026\n".to_vec()), None);
    assert_eq!(read_process_field(false, Vec::new()), None);
}

#[test]
fn process_field_is_absent_when_the_output_is_blank() {
    assert_eq!(read_process_field(true, Vec::new()), None);
    assert_eq!(read_process_field(true, b"\n".to_vec()), None);
    assert_eq!(read_process_field(true, b"  \t \n".to_vec()), None);
}

#[test]
fn process_field_is_absent_when_the_output_is_not_utf8() {
    assert_eq!(read_process_field(true, vec![0x70, 0x73, 0xff, 0x0a]), None);
    assert_eq!(read_process_field(true, vec![0xc3]), None);
    assert_eq!(read_process_field(true, vec![0xed, 0xa0, 0x80]), None);
}
