use postureflow::theme::{
    cosmic_accent_content, cosmic_wallpaper_content, gnome_wallpaper_uri, posture_theme_plan, DynamicThemeConfig,
    ProfileTheme, ThemeTable,
};

#[test]
fn test_default_theme_config() {
    let cfg = DynamicThemeConfig::default();
    assert!(cfg.enabled);
    assert!(cfg.themes.contains_key("home"));
    assert!(cfg.themes.contains_key("work"));
    assert!(cfg.themes.contains_key("dev"));
    assert!(cfg.themes.contains_key("travel"));
}

#[test]
fn theme_plan_follows_settings() {
    let mut cfg = DynamicThemeConfig::default();
    let plan = posture_theme_plan(&cfg, "travel").unwrap();
    assert_eq!(plan.display_name, "Stealth Crimson Lockdown");
    assert_eq!(plan.accent_hex.as_deref(), Some("#FF5555FF"));
    assert_eq!(plan.wallpaper_path.as_deref(), Some("/usr/share/backgrounds/cosmic/orion_nebula_nasa_heic0601a.jpg"));
    assert!(posture_theme_plan(&cfg, "gaming").is_none());
    cfg.apply_wallpaper = false;
    assert!(posture_theme_plan(&cfg, "home").unwrap().wallpaper_path.is_none());
    cfg.enabled = false;
    assert!(posture_theme_plan(&cfg, "home").is_none());
}

#[test]
fn theme_table_insert_replaces_in_place() {
    let mut t = ThemeTable::new();
    let a = ProfileTheme { display_name: "A".into(), accent_hex: "#000000FF".into(), wallpaper_path: "/a".into() };
    let b = ProfileTheme { display_name: "B".into(), accent_hex: "#FFFFFFFF".into(), wallpaper_path: "/b".into() };
    t.insert("x".to_string(), a);
    t.insert("y".to_string(), b.clone());
    t.insert("x".to_string(), b.clone());
    assert_eq!(t.len(), 2);
    assert_eq!(t.get("x"), Some(&b));
    assert!(t.get("z").is_none());
}

#[test]
fn theme_file_contents() {
    assert_eq!(cosmic_accent_content("#FF8C00FF"), "Some(\"#FF8C00FF\")\n");
    assert_eq!(gnome_wallpaper_uri("/w.png"), "file:///w.png");
    assert!(cosmic_wallpaper_content("/w.png").contains("source: Path(\"/w.png\"),"));
}
