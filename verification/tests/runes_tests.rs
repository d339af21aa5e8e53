use arkham::runes::Color;
use arkham::runes::Rune;
use arkham::runes::Runes;
use arkham::runes::ToRuneExt;
use arkham::theme::Theme;

#[test]
fn test_rune_builder() {
    let rune = Rune::new().content('A').bg(Color::Blue).fg(Color::White).bold();
    assert_eq!(rune.content, Some('A'));
    assert_eq!(rune.bg, Some(Color::Blue));
    assert_eq!(rune.fg, Some(Color::White));
    assert!(rune.bold);
}

// Overlay: the fully transparent rune changes nothing; a rune with a
// character wins the content; each styling attribute is taken from the
// upper rune exactly where the upper rune sets it.
#[test]
fn test_overlay_scenarios() {
    let base = Rune::new().content('a').fg(Color::Red);
    let transparent = Rune::new();
    assert!(base.compose(transparent).same_as(&base));

    let upper = Rune::new().content('b').bg(Color::Green);
    let merged = base.compose(upper);
    assert_eq!(merged.content, Some('b'));
    assert_eq!(merged.fg, Some(Color::Red));
    assert_eq!(merged.bg, Some(Color::Green));
    assert!(!merged.bold);

    // A styled rune without a character keeps the lower character but
    // contributes its styling: it is not a full identity.
    let tint = Rune::new().bg(Color::Blue);
    let tinted = base.compose(tint);
    assert_eq!(tinted.content, Some('a'));
    assert_eq!(tinted.bg, Some(Color::Blue));
}

// Overlay associativity on concrete values: grouping does not matter.
#[test]
fn test_overlay_associative_concrete() {
    let a = Rune::new().content('a').fg(Color::Red);
    let b = Rune::new().bg(Color::Green).bold();
    let c = Rune::new().content('c').fg(Color::Blue);
    let left = a.compose(b).compose(c);
    let right = a.compose(b.compose(c));
    assert!(left.same_as(&right));
}

#[test]
fn test_runes_from_str() {
    let runes = "This is a test string".to_runes();
    assert_eq!(runes.len(), 21);
    assert_eq!(runes.0[0].content, Some('T'));
    assert_eq!(runes.0[20].content, Some('g'));
}

#[test]
fn test_runes_styling() {
    let runes = "blue".to_runes().fg(Color::Blue);
    assert!(runes.0.iter().all(|r| r.fg == Some(Color::Blue)));
    let runes = runes.clear_fg();
    assert!(runes.0.iter().all(|r| r.fg == None));

    let runes = "on blue".to_runes().bg(Color::Blue);
    assert!(runes.0.iter().all(|r| r.bg == Some(Color::Blue)));
    let runes = runes.clear_bg();
    assert!(runes.0.iter().all(|r| r.bg == None));

    let runes = "bold".to_runes().bold();
    assert!(runes.0.iter().all(|r| r.bold));
}

#[test]
fn test_runes_add() {
    let mut runes = "This is a test string. ".to_runes();
    runes.add("This is a colored string".to_runes().fg(Color::Blue));
    runes.add(Runes::from_str("This is another basic string"));
    assert_eq!(
        runes.len(),
        "This is a test string. ".len()
            + "This is a colored string".len()
            + "This is another basic string".len()
    );
    assert_eq!(runes.0["This is a test string. ".len()].fg, Some(Color::Blue));
}

#[test]
fn test_runes_from_rune() {
    let runes = Runes::from_rune(Rune::new().content('x'));
    assert_eq!(runes.len(), 1);
    assert_eq!(runes.0[0].content, Some('x'));
}

#[test]
fn test_theme_default() {
    let theme = Theme::default();
    assert_eq!(theme.fg, Color::White);
    assert_eq!(theme.fg_selection, Color::White);
    assert_eq!(theme.bg_primary, Color::Rgb { r: 36, g: 39, b: 58 });
    assert_eq!(theme.accent, Color::Rgb { r: 150, g: 0, b: 150 });
}
