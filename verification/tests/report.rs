use glwrap::report::{error_into_string, Cause};
use glwrap::shader::ShaderError;

fn cause(message: &str, backtrace: Option<&str>) -> Cause {
    Cause { message: message.to_string(), backtrace: backtrace.map(|text| text.to_string()) }
}

#[test]
fn an_error_without_causes_is_its_own_message() {
    assert_eq!(error_into_string("Failed to link program: ", &Vec::new()), "Failed to link program: ");
    assert_eq!(error_into_string("", &Vec::new()), "");
}

#[test]
fn each_cause_follows_a_colon_and_a_space() {
    let causes = vec![cause("No such file or directory (os error 2)", None)];
    assert_eq!(
        error_into_string("I/O Error (cube.vert)", &causes),
        "I/O Error (cube.vert): No such file or directory (os error 2)"
    );
}

#[test]
fn causes_come_nearest_first() {
    let causes = vec![cause("first", None), cause("second", None), cause("third", None)];
    assert_eq!(error_into_string("top", &causes), "top: first: second: third");
}

#[test]
fn a_backtrace_stands_right_behind_its_cause() {
    let causes = vec![cause("first", Some("\n  at one")), cause("second", None), cause("", Some("<trace>"))];
    assert_eq!(error_into_string("top", &causes), "top: first\n  at one: second: <trace>");
}

#[test]
fn an_unread_source_is_reported_with_its_cause() {
    let inner = std::io::Error::new(std::io::ErrorKind::NotFound, "file not there");
    let error = ShaderError::IoError { name: "light.frag".to_string(), inner };
    let causes = match &error {
        ShaderError::IoError { inner, .. } => vec![cause(&format!("{}", inner), None)],
        _ => Vec::new(),
    };
    assert_eq!(
        error_into_string(&error.message(), &causes),
        "I/O Error (light.frag): file not there"
    );
}
