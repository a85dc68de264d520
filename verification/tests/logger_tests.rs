use rogue_logging::{LoggerBuilder, TimeFormat, Verbosity};

#[test]
fn format_log_with_time_format_local() {
    // Arrange
    let logger = LoggerBuilder::new()
        .with_time_format(TimeFormat::Local)
        .without_init()
        .create();

    // Act
    let output = logger.format_log(Verbosity::Info, "This is an info message".to_owned());

    // Assert
    println!("{output}");
    assert!(output.contains("INFO"));
    assert!(output.contains("This is an info message"));
}

#[test]
fn format_log_with_time_format_utc() {
    // Arrange
    let logger = LoggerBuilder::new()
        .with_time_format(TimeFormat::Utc)
        .without_init()
        .create();

    // Act
    let output = logger.format_log(Verbosity::Warn, "This is a warning message".to_owned());

    // Assert
    println!("{output}");
    assert!(output.contains("WARN"));
    assert!(output.contains("This is a warning message"));
}

#[test]
fn format_log_with_time_format_elapsed() {
    // Arrange
    let logger = LoggerBuilder::new()
        .with_time_format(TimeFormat::Elapsed)
        .without_init()
        .create();

    // Act
    let output = logger.format_log(Verbosity::Error, "This is an error message".to_owned());

    // Assert
    println!("{output}");
    assert!(output.contains("ERRO"));
    assert!(output.contains("This is an error message"));
}

#[test]
fn format_log_with_time_format_none() {
    // Arrange
    let logger = LoggerBuilder::new()
        .with_time_format(TimeFormat::Off)
        .without_init()
        .create();

    // Act
    let error = logger.format_log(Verbosity::Error, "This is an error message".to_owned());
    let warn = logger.format_log(Verbosity::Warn, "This is a warning message".to_owned());
    let info = logger.format_log(Verbosity::Info, "This is an info message".to_owned());
    let debug = logger.format_log(Verbosity::Debug, "This is a debug message".to_owned());
    let trace = logger.format_log(Verbosity::Trace, "This is a trace message".to_owned());

    // Assert
    println!("{error}");
    println!("{warn}");
    println!("{info}");
    println!("{debug}");
    println!("{trace}");
    assert!(error.starts_with("ERRO") && error.contains("This is an error message"));
    assert!(warn.starts_with("WARN") && warn.contains("This is a warning message"));
    assert!(info.starts_with("INFO") && info.contains("This is an info message"));
    assert!(debug.starts_with("DEBU") && debug.contains("This is a debug message"));
    assert!(trace.starts_with("TRAC") && trace.contains("This is a trace message"));
}

#[test]
fn enabled_excludes_target_with_exclude_filter() {
    // Arrange
    let logger = LoggerBuilder::new()
        .with_exclude_filter("noisy_crate".to_owned())
        .without_init()
        .create();

    // Act
    let enabled = logger.enabled("noisy_crate::module", Verbosity::Info);

    // Assert
    assert!(!enabled);
}

#[test]
fn enabled_includes_target_without_matching_filter() {
    // Arrange
    let logger = LoggerBuilder::new()
        .with_exclude_filter("noisy_crate".to_owned())
        .without_init()
        .create();

    // Act
    let enabled = logger.enabled("my_crate::module", Verbosity::Info);

    // Assert
    assert!(enabled);
}

#[test]
fn enabled_excludes_target_not_in_include_filter() {
    // Arrange
    let logger = LoggerBuilder::new()
        .with_include_filter("allowed_crate".to_owned())
        .without_init()
        .create();

    // Act
    let enabled = logger.enabled("other_crate::module", Verbosity::Info);

    // Assert
    assert!(!enabled);
}

#[test]
fn enabled_excludes_verbosity_above_threshold() {
    // Arrange
    let logger = LoggerBuilder::new()
        .with_verbosity(Verbosity::Info)
        .without_init()
        .create();

    // Act
    let enabled = logger.enabled("test", Verbosity::Debug);

    // Assert
    assert!(!enabled);
}

#[test]
fn enabled_includes_verbosity_at_threshold() {
    // Arrange
    let logger = LoggerBuilder::new()
        .with_verbosity(Verbosity::Info)
        .without_init()
        .create();

    // Act
    let enabled = logger.enabled("test", Verbosity::Info);

    // Assert
    assert!(enabled);
}

#[test]
fn format_prefix_contains_verbosity_id() {
    // Arrange
    let logger = LoggerBuilder::new()
        .with_time_format(TimeFormat::Off)
        .without_init()
        .create();

    // Act
    let prefix = logger.format_prefix(Verbosity::Info);

    // Assert
    assert!(prefix.contains("INFO"));
}

#[test]
fn enabled_includes_own_package_under_include_filter() {
    // Arrange
    let logger = LoggerBuilder::new()
        .with_include_filter("allowed_crate".to_owned())
        .without_init()
        .create();

    // Act
    let enabled = logger.enabled("rogue_logging::logger", Verbosity::Info);

    // Assert
    assert!(enabled);
}

#[test]
fn format_log_with_elapsed_prefix_shape() {
    // Arrange
    let logger = LoggerBuilder::new()
        .with_time_format(TimeFormat::Elapsed)
        .without_init()
        .create();

    // Act
    let output = logger.format_log(Verbosity::Info, "tick".to_owned());

    // Assert: "   0.mmm INFO ..." - seconds right-aligned to four
    // characters, a dot, three fractional digits, a space.
    let prefix: String = output.chars().take(9).collect();
    assert_eq!(&prefix[0..3], "   ");
    assert_eq!(prefix.chars().nth(4), Some('.'));
    assert_eq!(prefix.chars().nth(8), Some(' '));
    assert!(output.contains("INFO"));
}
