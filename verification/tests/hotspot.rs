use niri_workspace::hotspot::hotspot_fields;

fn fields(text: &str) -> Option<(&str, &str)> {
    hotspot_fields(text.as_bytes()).map(|(xs, xe, ys, ye)| (text[xs..xe].trim(), text[ys..ye].trim()))
}

#[test]
fn hotspot_is_read_from_the_first_line_that_has_one() {
    assert_eq!(fields("<svg>\n<!-- Hotspot: 3.5, 4 -->\n</svg>"), Some(("3.5", "4 -->")));
    assert_eq!(fields("Hotspot: 5,6\r\nHotspot: 7,8"), Some(("5", "6")));
    // A marker without a comma on its line is skipped.
    assert_eq!(fields("Hotspot: 7\nHotspot: 1, 2"), Some(("1", "2")));
    // Only the first marker of a line counts.
    assert_eq!(fields("Hotspot: 1 Hotspot: 2, 3"), Some(("1 Hotspot: 2", "3")));
    // The y text runs to the end of the line.
    assert_eq!(fields("x Hotspot:9,10,11\nmore"), Some(("9", "10,11")));
}

#[test]
fn no_hotspot_without_marker_and_comma() {
    assert_eq!(fields(""), None);
    assert_eq!(fields("<svg/>"), None);
    assert_eq!(fields("Hotspot: 1\n, 2"), None);
    assert_eq!(fields("Hotspot 1, 2"), None);
}
