use rogue_logging::Error;
use std::convert::Infallible;
use std::fmt::Write;
use std::io;
use std::str;
use std::time::SystemTime;

/// Serialize an error's fields through the YAML writer, in field order.
fn to_yaml(error: &Error) -> String {
    let mut mapping = serde_yaml::Mapping::new();
    for (key, value) in error.to_fields() {
        mapping.insert(
            serde_yaml::Value::String(key),
            serde_yaml::Value::String(value),
        );
    }
    serde_yaml::to_string(&mapping).unwrap()
}

#[test]
fn serialize_error() {
    // Arrange
    let error = Error {
        action: "perform action".to_owned(),
        message: "Something went wrong".to_owned(),
        ..Error::default()
    };

    // Act
    let yaml = to_yaml(&error);

    // Assert
    let expected = "action: perform action
message: Something went wrong
";
    assert_eq!(yaml, expected);
}

#[test]
fn serialize_error_with_domain() {
    // Arrange
    let error = Error {
        action: "perform action".to_owned(),
        message: "Something went wrong".to_owned(),
        domain: Some("test".to_owned()),
        ..Error::default()
    };

    // Act
    let yaml_output = to_yaml(&error);

    // Assert
    let expected_output = "action: perform action
message: Something went wrong
domain: test
";
    assert_eq!(yaml_output, expected_output);
}

#[test]
fn fields_round_trip_restores_error() {
    // Arrange
    let error = Error {
        action: "perform action".to_owned(),
        message: "Something went wrong".to_owned(),
        ..Error::default()
    };

    // Act
    let rebuilt = Error::from_fields(&error.to_fields());

    // Assert
    assert_eq!(rebuilt.action, error.action);
    assert_eq!(rebuilt.message, error.message);
    assert!(rebuilt.domain.is_none());
    assert!(rebuilt.status_code.is_none());
    assert!(rebuilt.backtrace.is_none());
}

#[test]
fn fields_round_trip_restores_status_code() {
    // Arrange
    let error = Error {
        action: "perform action".to_owned(),
        message: "Something went wrong".to_owned(),
        domain: Some("http".to_owned()),
        status_code: Some(404),
        ..Error::default()
    };

    // Act
    let rebuilt = Error::from_fields(&error.to_fields());

    // Assert
    assert_eq!(rebuilt.action, error.action);
    assert_eq!(rebuilt.message, error.message);
    assert_eq!(rebuilt.domain, Some("http".to_owned()));
    assert_eq!(rebuilt.status_code, Some(404));
}

#[test]
fn serialize_error_omits_status_code_when_absent() {
    // Arrange
    let error = Error {
        action: "perform action".to_owned(),
        message: "Something went wrong".to_owned(),
        ..Error::default()
    };

    // Act & Assert
    for (key, _) in error.to_fields() {
        assert_ne!(key, "domain");
        assert_ne!(key, "status_code");
    }
}

#[test]
fn test_from_io_error() {
    // Arrange
    let io_error = io::Error::new(io::ErrorKind::NotFound, "file not found");

    // Act
    let error: Error = io_error.into();

    // Assert
    assert_eq!(error.action, "perform I/O operation");
    assert!(error.message.contains("file not found"));
}

#[test]
fn test_from_utf8_error() {
    // Arrange
    let invalid_vec = vec![0xFF, 0xFF];
    let utf8_error = String::from_utf8(invalid_vec).unwrap_err();

    // Act
    let error: Error = utf8_error.into();

    // Assert
    assert_eq!(error.action, "convert bytes to UTF-8 string");
    assert!(error.message.contains("invalid utf-8"));
}

#[test]
fn test_from_parse_int_error() {
    // Arrange
    let parse_error = "not_a_number".parse::<i32>().unwrap_err();

    // Act
    let error: Error = parse_error.into();

    // Assert
    assert_eq!(error.action, "parse integer");
    assert!(error.message.contains("invalid digit"));
}

#[test]
fn test_from_parse_float_error() {
    // Arrange
    let parse_error = "not_a_float".parse::<f64>().unwrap_err();

    // Act
    let error: Error = parse_error.into();

    // Assert
    assert_eq!(error.action, "parse float");
    assert!(error.message.contains("invalid float"));
}

#[test]
fn test_from_system_time_error() {
    // Arrange
    let future_time = SystemTime::now() + std::time::Duration::from_secs(60);
    let past_time = SystemTime::now();
    let time_error = past_time.duration_since(future_time).unwrap_err();

    // Act
    let error: Error = time_error.into();

    // Assert
    assert_eq!(error.action, "get system time");
    assert!(error.message.contains("second time provided was later"));
}

#[test]
fn test_from_string() {
    // Arrange
    let string_error = String::from("custom error message");

    // Act
    let error: Error = string_error.into();

    // Assert
    assert_eq!(error.action, "perform operation");
    assert_eq!(error.message, "custom error message");
}

#[test]
fn test_from_str() {
    // Arrange
    let str_error = "custom error message";

    // Act
    let error: Error = str_error.into();

    // Assert
    assert_eq!(error.action, "perform operation");
    assert_eq!(error.message, "custom error message");
}

#[test]
fn test_from_boxed_error() {
    // Arrange
    struct CustomError(String);

    impl std::fmt::Display for CustomError {
        fn fmt(&self, f: &mut std::fmt::Formatter) -> std::fmt::Result {
            f.write_str(&self.0)
        }
    }

    impl std::fmt::Debug for CustomError {
        fn fmt(&self, f: &mut std::fmt::Formatter) -> std::fmt::Result {
            f.write_str(&self.0)
        }
    }

    impl std::error::Error for CustomError {}

    let custom_error = CustomError("boxed error message".to_string());
    let boxed_error = Box::new(custom_error);

    // Act
    let error: Error = Error::from_boxed(boxed_error);

    // Assert
    assert_eq!(error.action, "perform operation");
    assert!(error.message.contains("boxed error message"));
}

#[test]
fn test_from_str_utf8_error() {
    // Arrange
    // Use a multi-byte character (é) and get its bytes
    let s = "é".as_bytes();
    // Take only the first byte to create an incomplete UTF-8 sequence
    let utf8_error = str::from_utf8(&s[..1]).unwrap_err();

    // Act
    let error: Error = utf8_error.into();

    // Assert
    assert_eq!(error.action, "parse UTF-8 string");
    assert!(error.message.contains("incomplete utf-8"));
}

#[test]
fn test_from_fmt_error() {
    // Arrange
    struct FailingWriter;

    impl Write for FailingWriter {
        fn write_str(&mut self, _s: &str) -> std::fmt::Result {
            Err(std::fmt::Error)
        }
    }

    let mut writer = FailingWriter;
    let fmt_error = writer.write_str("test").unwrap_err();

    // Act
    let error: Error = fmt_error.into();

    // Assert
    assert_eq!(error.action, "format string");
    assert_eq!(
        error.message,
        "an error occurred when formatting an argument"
    );
}

#[test]
fn test_from_set_logger_error() {
    // Arrange
    struct NullLogger;

    impl log::Log for NullLogger {
        fn enabled(&self, _metadata: &log::Metadata) -> bool {
            false
        }

        fn log(&self, _record: &log::Record) {}

        fn flush(&self) {}
    }

    // The first registration may succeed; the second must fail.
    let _ = log::set_boxed_logger(Box::new(NullLogger));
    let logger_error = log::set_boxed_logger(Box::new(NullLogger)).unwrap_err();

    // Act
    let error: Error = logger_error.into();

    // Assert
    assert_eq!(error.action, "set logger");
    assert!(!error.message.is_empty());
}

#[test]
fn test_from_chrono_parse_error() {
    // Arrange
    let invalid_date = "invalid_date";
    let parse_error = invalid_date.parse::<chrono::DateTime<chrono::Utc>>().unwrap_err();

    // Act
    let error: Error = parse_error.into();

    // Assert
    assert_eq!(error.action, "parse time");
    assert!(!error.message.is_empty());
}

#[test]
fn test_string_error_conversion() {
    // Test direct string conversion
    let err_str = "test error message";
    let error: Error = err_str.into();
    assert_eq!(error.message, err_str);
    assert_eq!(error.action, "perform operation");

    // Test String conversion
    let err_string = String::from("test error message");
    let error: Error = err_string.clone().into();
    assert_eq!(error.message, err_string);
    assert_eq!(error.action, "perform operation");

    // Test Result<Infallible, String> conversion
    let result: Result<Infallible, String> = Err("test error message".to_string());
    let error: Error = result.into();
    assert_eq!(error.message, "test error message");
    assert_eq!(error.action, "perform operation");
}

#[test]
fn test_error_propagation() {
    fn returns_string_error() -> Result<Infallible, String> {
        Err("Operation failed".to_string())
    }

    // Test that the error is properly propagated
    let result: Result<(), Error> = (|| {
        let _result = returns_string_error()?;
        Ok(())
    })();

    assert!(result.is_err());
    let error = result.unwrap_err();
    assert_eq!(error.action, "perform operation");
    assert_eq!(error.message, "Operation failed");
}

#[test]
fn display_returns_multiline_string() {
    // Arrange
    let error = Error {
        action: "load config".to_owned(),
        message: "File not found".to_owned(),
        domain: Some("io".to_owned()),
        ..Error::default()
    };

    // Act
    let display = error.display();

    // Assert
    assert!(display.contains("Failed to load config"));
    assert!(display.contains("A io error occurred"));
    assert!(display.contains("File not found"));
}

#[test]
fn display_shows_one_line_per_present_field() {
    // Arrange
    let plain = Error {
        action: "load config".to_owned(),
        message: "File not found".to_owned(),
        ..Error::default()
    };
    let full = Error {
        action: "load config".to_owned(),
        message: "File not found".to_owned(),
        domain: Some("io".to_owned()),
        status_code: Some(404),
        ..Error::default()
    };

    // Act & Assert
    assert_eq!(plain.display(), "Failed to load config\nFile not found");
    assert_eq!(plain.display().lines().count(), 2);
    assert_eq!(
        full.display(),
        "Failed to load config\nA io error occurred\nA 404 error occurred\nFile not found"
    );
    assert_eq!(full.display().lines().count(), 4);
}

#[test]
fn clone_loses_backtrace() {
    // Arrange
    let error = Error {
        action: "test".to_owned(),
        message: "test".to_owned(),
        ..Error::default()
    };

    // Act
    let cloned = error.clone();

    // Assert
    assert!(cloned.backtrace.is_none());
}

#[test]
fn default_has_empty_strings() {
    // Arrange & Act
    let error = Error::default();

    // Assert
    assert!(error.action.is_empty());
    assert!(error.message.is_empty());
    assert!(error.domain.is_none());
    assert!(error.status_code.is_none());
}
