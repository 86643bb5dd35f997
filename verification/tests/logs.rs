use limux::logs::{append_env_value, gtk_log_line, G_LOG_LEVEL_WARNING};

#[test]
fn theme_parser_errors_are_dropped() {
    assert_eq!(gtk_log_line(Some("Gtk"), G_LOG_LEVEL_WARNING, Some("Theme parser error: gtk.css:1:2")), None);
    assert_eq!(gtk_log_line(None, 0, Some("x Theme parser error")), None);
}

#[test]
fn warnings_are_labelled() {
    assert_eq!(gtk_log_line(Some("Gdk"), G_LOG_LEVEL_WARNING, Some("hello")), Some("(Gdk): WARNING: hello".to_string()));
    assert_eq!(gtk_log_line(Some("Gdk"), 8, Some("hello")), Some("(Gdk): hello".to_string()));
    assert_eq!(gtk_log_line(None, 0x18, None), Some("(Gtk): WARNING: ".to_string()));
    assert_eq!(gtk_log_line(Some(""), 0, Some("Theme parser")), Some("(): Theme parser".to_string()));
}

#[test]
fn env_values_are_comma_joined() {
    assert_eq!(append_env_value(Some("a,b"), "c"), "a,b,c");
    assert_eq!(append_env_value(Some(""), "c"), "c");
    assert_eq!(append_env_value(None, "c"), "c");
    assert_eq!(append_env_value(Some("a"), ""), "a,");
}
