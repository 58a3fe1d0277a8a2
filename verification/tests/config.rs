use limbo::config::types::{
    AppLauncher, Bar, Battery, Brightness, Color, ColorNameOrHex, Config, General, Icon,
    ModuleName, Modules, MouseCommands, NightLight, NotificationSegment, Notifications,
    QuickSettingSegment, QuickSettings, SysMon, SysMonSegment, TemperatureType, Theme,
    TimeFormat, Todo, Tray, Twitch, Unit, Volume, Weather, WorkspaceColors,
};
use limbo::sections::workspaces::state::resolve_color_targets;

fn named(name: &str, color: &str) -> Icon {
    Icon { name: name.to_string(), color: ColorNameOrHex::Name(color.to_string()) }
}

fn same_icon(icon: &Icon, name: &str, color: &str) -> bool {
    icon.name == name && icon.color == ColorNameOrHex::Name(color.to_string())
}

#[test]
fn default_time_format_and_unit() {
    assert_eq!(TimeFormat::default(), TimeFormat::_12h);
    assert_ne!(TimeFormat::default(), TimeFormat::_24h);
    assert_eq!(Unit::default(), Unit::Metric);
    assert_ne!(Unit::default(), Unit::Imperial);
}

#[test]
fn default_modules() {
    let modules = Modules::default();
    assert_eq!(
        modules.left,
        vec![ModuleName::AppLauncher, ModuleName::Notifications, ModuleName::Music]
    );
    assert_eq!(modules.center, vec![ModuleName::Workspaces]);
    assert_eq!(
        modules.right,
        vec![
            ModuleName::Sysmon,
            ModuleName::QuickSettings,
            ModuleName::Battery,
            ModuleName::Clock,
        ]
    );
}

#[test]
fn default_mouse_commands_run_nothing() {
    let commands = MouseCommands::default();
    assert_eq!(commands.on_clicked, None);
    assert_eq!(commands.on_primary_click, None);
    assert_eq!(commands.on_middle_click, None);
    assert_eq!(commands.on_secondary_click, None);
    assert_eq!(commands.on_scroll_up, None);
    assert_eq!(commands.on_scroll_down, None);
}

#[test]
fn segments_are_told_apart() {
    assert_ne!(NotificationSegment::Weather, NotificationSegment::Github);
    assert_ne!(NotificationSegment::Todoist, NotificationSegment::Github);
    assert_ne!(TemperatureType::Apparent, TemperatureType::Exact);
    assert_ne!(QuickSettingSegment::Tray, QuickSettingSegment::Toggle);
    assert_ne!(SysMonSegment::Cpu, SysMonSegment::Ram);
    assert_ne!(SysMonSegment::Temp, SysMonSegment::Ram);
}

#[test]
fn opaque_colour_of_three_channels() {
    assert_eq!(Color::from_rgb8(1, 2, 3), Color { r: 1, g: 2, b: 3, a: 255 });
}

#[test]
fn default_theme() {
    let theme = Theme::default();
    assert_eq!(theme.font, "IBM Plex Mono");
    assert_eq!(theme.border_radius, 6_000);
    assert_eq!(theme.colors.len(), 40);
    assert_eq!(theme.colors[0], ("crust".to_string(), Color { r: 0x11, g: 0x11, b: 0x1b, a: 255 }));
    assert_eq!(theme.colors[39], ("cyan".to_string(), Color { r: 0xbe, g: 0xe4, b: 0xed, a: 255 }));
    let mut names: Vec<&String> = theme.colors.iter().map(|entry| &entry.0).collect();
    names.sort();
    names.dedup();
    assert_eq!(names.len(), 40);
}

#[test]
fn names_resolve_through_the_palette_and_written_colours_stand_for_themselves() {
    let theme = Theme::default();
    assert_eq!(
        theme.resolve_color(&ColorNameOrHex::name("blue")),
        Some(Color { r: 0x89, g: 0xb4, b: 0xfa, a: 255 })
    );
    assert_eq!(
        theme.resolve_color(&ColorNameOrHex::name("surface2")),
        Some(Color { r: 0x58, g: 0x5b, b: 0x70, a: 255 })
    );
    assert_eq!(
        theme.resolve_color(&ColorNameOrHex::name("lavenderDark")),
        Some(Color { r: 0x7f, g: 0x8c, b: 0xfe, a: 255 })
    );
    assert_eq!(theme.resolve_color(&ColorNameOrHex::name("Blue")), None);
    assert_eq!(theme.resolve_color(&ColorNameOrHex::name("")), None);
    assert_eq!(theme.resolve_color(&ColorNameOrHex::name("no such colour")), None);
    let written = Color { r: 1, g: 2, b: 3, a: 4 };
    assert_eq!(theme.resolve_color(&ColorNameOrHex::Hex(written)), Some(written));
    let empty = Theme { font: String::new(), border_radius: 0, colors: vec![] };
    assert_eq!(empty.resolve_color(&ColorNameOrHex::name("blue")), None);
    assert_eq!(empty.resolve_color(&ColorNameOrHex::Hex(written)), Some(written));
}

#[test]
fn first_colour_of_a_name_counts() {
    let theme = Theme {
        font: String::new(),
        border_radius: 0,
        colors: vec![
            ("a".to_string(), Color::from_rgb8(1, 1, 1)),
            ("b".to_string(), Color::from_rgb8(2, 2, 2)),
            ("a".to_string(), Color::from_rgb8(3, 3, 3)),
        ],
    };
    assert_eq!(theme.resolve_color(&ColorNameOrHex::name("a")), Some(Color::from_rgb8(1, 1, 1)));
    assert_eq!(theme.resolve_color(&ColorNameOrHex::name("b")), Some(Color::from_rgb8(2, 2, 2)));
}

#[test]
fn default_colours_of_the_pills() {
    let colors = WorkspaceColors::default();
    assert_eq!(colors.active, ColorNameOrHex::Name("blue".to_string()));
    assert_eq!(colors.has_windows, ColorNameOrHex::Name("blue".to_string()));
    assert_eq!(colors.normal, ColorNameOrHex::Name("surface2".to_string()));
    let targets = resolve_color_targets(&Theme::default(), &colors);
    assert_eq!(targets.active, Color { r: 0x89, g: 0xb4, b: 0xfa, a: 255 });
    assert_eq!(targets.has_windows, Color { r: 0x89, g: 0xb4, b: 0xfa, a: 255 });
    assert_eq!(targets.normal, Color { r: 0x58, g: 0x5b, b: 0x70, a: 255 });
}

#[test]
fn colours_of_the_pills_fall_back_where_the_theme_lacks_a_name() {
    let theme = Theme { font: String::new(), border_radius: 0, colors: vec![] };
    let targets = resolve_color_targets(&theme, &WorkspaceColors::default());
    assert_eq!(targets.normal, Color::from_rgb8(88, 91, 112));
    assert_eq!(targets.has_windows, Color::from_rgb8(88, 91, 112));
    assert_eq!(targets.active, Color::from_rgb8(137, 180, 250));
    let colors = WorkspaceColors {
        active: ColorNameOrHex::Hex(Color::from_rgb8(1, 2, 3)),
        has_windows: ColorNameOrHex::name("missing"),
        normal: ColorNameOrHex::Hex(Color::from_rgb8(4, 5, 6)),
    };
    let targets = resolve_color_targets(&theme, &colors);
    assert_eq!(targets.active, Color::from_rgb8(1, 2, 3));
    assert_eq!(targets.has_windows, Color::from_rgb8(88, 91, 112));
    assert_eq!(targets.normal, Color::from_rgb8(4, 5, 6));
}

#[test]
fn icon_of_a_name_and_a_colour() {
    let icon = Icon::new("clock", ColorNameOrHex::name("text"));
    assert_eq!(icon.name, "clock");
    assert_eq!(icon.color, ColorNameOrHex::Name("text".to_string()));
}

#[test]
fn default_general_settings() {
    let general = General::default();
    assert_eq!(general.time_format, TimeFormat::_12h);
    assert_eq!(general.unit, Unit::Metric);
    assert_eq!(general.lat, 0);
    assert_eq!(general.lon, 0);
    assert_eq!(general.debug, false);
}

#[test]
fn default_bar_theme_names_palette_colours() {
    let bar = Bar::default();
    assert_eq!(bar.theme.bg, ColorNameOrHex::Name("base".to_string()));
    assert_eq!(bar.theme.section_bg, ColorNameOrHex::Name("core".to_string()));
    assert_eq!(bar.theme.fg, ColorNameOrHex::Name("text".to_string()));
}

#[test]
fn default_app_launcher() {
    let launcher = AppLauncher::default();
    assert!(same_icon(&launcher.icon, "nix-snowflake-white", "text"));
    assert_eq!(launcher.mouse_commands.on_primary_click, Some("tofi-drun".to_string()));
    assert_eq!(launcher.mouse_commands.on_clicked, None);
    assert_eq!(launcher.mouse_commands.on_scroll_down, None);
}

#[test]
fn default_battery() {
    let battery = Battery::default();
    assert_eq!(battery.full_threshold, 97);
    assert_eq!(battery.ramp_icons.len(), 4);
    assert_eq!(battery.ramp_icons[0].name, named("battery-4", "green").name);
    assert!(same_icon(&battery.ramp_icons[2], "battery-2", "yellow"));
    assert!(same_icon(&battery.ramp_icons[3], "battery-1", "red"));
    assert!(same_icon(&battery.charging_icon, "battery-charging", "green"));
}

#[test]
fn default_notifications() {
    let notifications = Notifications::default();
    assert_eq!(
        notifications.segments,
        vec![NotificationSegment::Weather, NotificationSegment::Todoist, NotificationSegment::Github]
    );
    assert_eq!(notifications.weather.temperature, TemperatureType::Apparent);
    assert_eq!(
        notifications.weather.mouse_commands.on_primary_click,
        Some("xdg-open https://merrysky.net".to_string())
    );
    assert_eq!(notifications.weather.icon.color.day, ColorNameOrHex::Name("yellow".to_string()));
    assert_eq!(notifications.weather.icon.color.error, ColorNameOrHex::Name("red".to_string()));
    assert!(same_icon(&notifications.todoist.icon, "checkbox", "red"));
    assert_eq!(notifications.todoist.api_token, "");
    assert!(same_icon(&notifications.github.icon, "brand-github", "text"));
    assert_eq!(
        notifications.github.mouse_commands.on_primary_click,
        Some("xdg-open https://github.com/notifications".to_string())
    );
    assert!(Weather::default().text.is_none());
}

#[test]
fn default_quick_settings() {
    let settings = QuickSettings::default();
    assert_eq!(
        settings.segments,
        vec![
            QuickSettingSegment::Tray,
            QuickSettingSegment::NightLight,
            QuickSettingSegment::Brightness,
            QuickSettingSegment::Caffeine,
            QuickSettingSegment::Dnd,
            QuickSettingSegment::Mic,
            QuickSettingSegment::Volume,
            QuickSettingSegment::Network,
            QuickSettingSegment::Toggle,
        ]
    );
    assert_eq!(settings.night_light.day_temp, 6500);
    assert_eq!(settings.night_light.night_temp, 4000);
    assert_eq!(settings.night_light.fade_duration_minutes, 30);
    assert_eq!(settings.brightness.step, 50);
    assert_eq!(settings.volume.step, 50);
    assert_eq!(settings.volume.on_secondary_click, Some("pavucontrol --tab=3".to_string()));
    assert_eq!(settings.mic.on_secondary_click, Some("pavucontrol --tab=4".to_string()));
    assert_eq!(settings.caffeine.toggle_cmd, "wlinhibit");
    assert_eq!(settings.dnd.toggle_cmd, "makoctl mode -t do-not-disturb");
    assert_eq!(settings.notifs.open_cmd, "swaync-client -t -sw");
    assert_eq!(
        settings.network.mouse_commands.on_primary_click,
        Some("nm-connection-editor".to_string())
    );
    assert_eq!(settings.battery.ramp_icons.len(), 5);
    assert!(same_icon(&settings.toggle.open_icon, "chevron-up", "text"));
    assert!(settings.tray.ignored_apps.is_empty());
    assert!(Tray::default().app_icon_mappings.is_empty());
    assert_eq!(NightLight::default().day_temp, 6500);
    assert_eq!(Brightness::default().ramp_icons.len(), 3);
    assert_eq!(Volume::default().headphones_ramp.len(), 2);
}

#[test]
fn default_system_monitor() {
    let sysmon = SysMon::default();
    assert_eq!(sysmon.segments, vec![SysMonSegment::Cpu, SysMonSegment::Temp, SysMonSegment::Ram]);
    assert_eq!(sysmon.probe_interval_ms, 5000);
    assert_eq!(sysmon.precision, 1);
    assert!(same_icon(&sysmon.cpu.icon, "cpu", "lavender"));
    assert!(same_icon(&sysmon.temp.icon, "temperature", "red"));
    assert!(same_icon(&sysmon.ram.icon, "cpu-2", "pink"));
    assert_eq!(sysmon.mouse_commands.on_clicked, None);
}

#[test]
fn default_todo_and_twitch() {
    let todo = Todo::default();
    assert_eq!(
        todo.sound_url,
        "https://todoist.b-cdn.net/assets/sounds/d8040624c9c7c88aa730f73faa60cf39.mp3"
    );
    assert!(same_icon(&todo.icon, "square", "red"));
    let twitch = Twitch::default();
    assert_eq!(twitch.icon.name, "brand-twitch");
    assert_eq!(
        twitch.icon.color,
        ColorNameOrHex::Hex(Color { r: 0xdd, g: 0xb6, b: 0xf2, a: 255 })
    );
    assert!(twitch.channels.is_empty());
    assert_eq!(twitch.client_id, "");
    assert_eq!(twitch.client_secret, "");
}

#[test]
fn default_config_is_made_of_the_defaults_of_its_parts() {
    let config = Config::default();
    assert_eq!(config.general.time_format, TimeFormat::_12h);
    assert_eq!(config.theme.colors.len(), 40);
    assert_eq!(config.bar.modules.center, vec![ModuleName::Workspaces]);
    assert_eq!(config.bar.workspaces.color.normal, ColorNameOrHex::Name("surface2".to_string()));
    assert!(same_icon(&config.bar.clock.icon, "clock", "text"));
    let targets = resolve_color_targets(&config.theme, &config.bar.workspaces.color);
    assert_eq!(targets.active, Color { r: 0x89, g: 0xb4, b: 0xfa, a: 255 });
}

#[test]
fn default_palette_holds_each_name_once() {
    let theme = Theme::default();
    assert_eq!(theme.colors.len(), 40);
    for (place, (name, color)) in theme.colors.iter().enumerate() {
        let others = theme.colors.iter().filter(|(other, _)| other == name).count();
        assert_eq!(others, 1, "{name} at {place}");
        assert_eq!(theme.resolve_color(&ColorNameOrHex::name(name)), Some(*color));
    }
}
