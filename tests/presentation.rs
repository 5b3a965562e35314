use grape_planit::presentation::{accent_script, color_script, color_scripts, theme_script};

#[test]
fn level_color_script() {
    assert_eq!(
        color_script(&"level-important-urgent".to_string(), &"#ff4757".to_string()),
        "document.documentElement.style.setProperty('--level-important-urgent-color', '#ff4757')"
    );
}

#[test]
fn one_color_script_per_level() {
    let colors = vec![("a".to_string(), "#1".to_string()), ("b".to_string(), "#2".to_string())];
    let scripts = color_scripts(&colors);
    assert_eq!(scripts.len(), 2);
    assert_eq!(scripts[1], "document.documentElement.style.setProperty('--b-color', '#2')");
}

#[test]
fn theme_and_accent_scripts() {
    assert_eq!(
        theme_script(&"dark".to_string()),
        "document.documentElement.setAttribute('data-theme', 'dark')"
    );
    assert_eq!(
        accent_script(&"#007bff".to_string()),
        "document.documentElement.style.setProperty('--accent-color', '#007bff')"
    );
}
