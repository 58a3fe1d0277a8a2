//! The settings of the bar, each with the value that it has where the user
//! sets nothing. Fractions are whole numbers of thousandths.

use vstd::prelude::*;

verus! {

/// How the clock writes the hour.
#[derive(Debug, Clone, Copy, PartialEq, Eq, Structural)]
pub enum TimeFormat {
    _12h,
    _24h,
}

impl Default for TimeFormat {
    fn default() -> (format: Self)
        ensures
            format == TimeFormat::_12h,
    {
        TimeFormat::_12h
    }
}

/// The system of units for what is measured.
#[derive(Debug, Clone, Copy, PartialEq, Eq, Structural)]
pub enum Unit {
    Metric,
    Imperial,
}

impl Default for Unit {
    fn default() -> (unit: Self)
        ensures
            unit == Unit::Metric,
    {
        Unit::Metric
    }
}

/// The modules that a bar can show.
#[derive(Debug, Clone, Copy, PartialEq, Eq, Structural)]
pub enum ModuleName {
    AppLauncher,
    Battery,
    Clock,
    Music,
    Notifications,
    QuickSettings,
    Sysmon,
    Todo,
    Twitch,
    Workspaces,
}

/// The modules of a bar, by the side on which they stand, each side in order.
#[derive(Debug)]
pub struct Modules {
    pub left: Vec<ModuleName>,
    pub center: Vec<ModuleName>,
    pub right: Vec<ModuleName>,
}

impl Modules {
    /// Every setting has the value that it has where the user sets nothing.
    pub open spec fn is_default(self) -> bool {
        &&& self.left@ =~= seq![
            ModuleName::AppLauncher,
            ModuleName::Notifications,
            ModuleName::Music,
        ]
        &&& self.center@ =~= seq![ModuleName::Workspaces]
        &&& self.right@ =~= seq![
            ModuleName::Sysmon,
            ModuleName::QuickSettings,
            ModuleName::Battery,
            ModuleName::Clock,
        ]
    }
}

impl Default for Modules {
    fn default() -> (modules: Self)
        ensures
            modules.is_default(),
    {
        Self {
            left: vec![ModuleName::AppLauncher, ModuleName::Notifications, ModuleName::Music],
            center: vec![ModuleName::Workspaces],
            right: vec![
                ModuleName::Sysmon,
                ModuleName::QuickSettings,
                ModuleName::Battery,
                ModuleName::Clock,
            ],
        }
    }
}

/// The commands that the pointer runs on a module, one for each gesture that
/// has one.
#[derive(Debug)]
pub struct MouseCommands {
    pub on_clicked: Option<String>,
    pub on_primary_click: Option<String>,
    pub on_middle_click: Option<String>,
    pub on_secondary_click: Option<String>,
    pub on_scroll_up: Option<String>,
    pub on_scroll_down: Option<String>,
}

/// `text` is there, and reads `content`.
pub open spec fn text_is(text: Option<String>, content: Seq<char>) -> bool {
    text matches Some(held) && held@ == content
}

impl MouseCommands {
    /// Every setting has the value that it has where the user sets nothing:
    /// no gesture runs a command.
    pub open spec fn is_default(self) -> bool {
        &&& self.on_clicked is None
        &&& self.on_primary_click is None
        &&& self.on_middle_click is None
        &&& self.on_secondary_click is None
        &&& self.on_scroll_up is None
        &&& self.on_scroll_down is None
    }
}

impl Default for MouseCommands {
    fn default() -> (commands: Self)
        ensures
            commands.is_default(),
    {
        Self {
            on_clicked: None,
            on_primary_click: None,
            on_middle_click: None,
            on_secondary_click: None,
            on_scroll_up: None,
            on_scroll_down: None,
        }
    }
}

/// The segments of the notifications module.
#[derive(Debug, Clone, Copy, PartialEq, Eq, Structural)]
pub enum NotificationSegment {
    Weather,
    Todoist,
    Github,
}

/// Which temperature the weather segment shows.
#[derive(Debug, Clone, Copy, PartialEq, Eq, Structural)]
pub enum TemperatureType {
    Apparent,
    Exact,
}

/// The segments of the quick settings module.
#[derive(Debug, Clone, Copy, PartialEq, Eq, Structural)]
pub enum QuickSettingSegment {
    Tray,
    NightLight,
    Brightness,
    Caffeine,
    Dnd,
    Mic,
    Notifs,
    Volume,
    Network,
    Battery,
    Toggle,
}

/// The segments of the system monitor module.
#[derive(Debug, Clone, Copy, PartialEq, Eq, Structural)]
pub enum SysMonSegment {
    Cpu,
    Temp,
    Ram,
}

/// A colour of the screen: red, green, blue and opacity, eight bits each.
#[derive(Debug, Clone, Copy, PartialEq, Eq, Structural)]
pub struct Color {
    pub r: u8,
    pub g: u8,
    pub b: u8,
    pub a: u8,
}

impl Color {
    /// The opaque colour of these three channels.
    pub fn from_rgb8(r: u8, g: u8, b: u8) -> (color: Self)
        ensures
            color == (Color { r, g, b, a: 0xff }),
    {
        Color { r, g, b, a: 0xff }
    }
}

/// A colour that is named in the palette of the theme, or written out.
#[derive(Debug, PartialEq, Eq)]
pub enum ColorNameOrHex {
    Name(String),
    Hex(Color),
}

impl ColorNameOrHex {
    /// The colour that the palette holds under `name`.
    pub fn name(name: &str) -> (color: Self)
        ensures
            color matches ColorNameOrHex::Name(held) && held@ == name@,
    {
        ColorNameOrHex::Name(name.to_owned())
    }

    /// This is the colour that the palette holds under `name`.
    pub open spec fn is_name(self, name: Seq<char>) -> bool {
        self matches ColorNameOrHex::Name(held) && held@ == name
    }
}

/// The look of the bar: its font, the radius of its corners in thousandths of
/// a pixel, and its palette, a list of colours with their names.
#[derive(Debug)]
pub struct Theme {
    pub font: String,
    pub border_radius: u32,
    pub colors: Vec<(String, Color)>,
}

/// The place of the first colour at or after `from` that the palette holds
/// under `name`, or the length of the palette where there is none.
pub open spec fn first_named(colors: Seq<(String, Color)>, name: Seq<char>, from: int) -> int
    decreases colors.len() - from,
{
    if from < 0 || from >= colors.len() {
        colors.len() as int
    } else if colors[from].0@ == name {
        from
    } else {
        first_named(colors, name, from + 1)
    }
}

/// The names and the colours of a palette, in order.
pub open spec fn palette_view(colors: Seq<(String, Color)>) -> Seq<(Seq<char>, Color)> {
    colors.map_values(|entry: (String, Color)| (entry.0@, entry.1))
}

/// The palette that a theme has where nothing else is set.
pub open spec fn default_palette() -> Seq<(Seq<char>, Color)> {
    seq![
        ("crust"@, Color { r: 0x11, g: 0x11, b: 0x1b, a: 0xff }),
        ("mantle"@, Color { r: 0x18, g: 0x18, b: 0x25, a: 0xff }),
        ("base"@, Color { r: 0x1e, g: 0x1e, b: 0x2e, a: 0xff }),
        ("core"@, Color { r: 0x2c, g: 0x2c, b: 0x3f, a: 0xff }),
        ("surface0"@, Color { r: 0x31, g: 0x32, b: 0x44, a: 0xff }),
        ("surface1"@, Color { r: 0x45, g: 0x47, b: 0x5a, a: 0xff }),
        ("surface2"@, Color { r: 0x58, g: 0x5b, b: 0x70, a: 0xff }),
        ("overlay0"@, Color { r: 0x6c, g: 0x70, b: 0x86, a: 0xff }),
        ("overlay1"@, Color { r: 0x7f, g: 0x84, b: 0x9c, a: 0xff }),
        ("overlay2"@, Color { r: 0x93, g: 0x99, b: 0xb2, a: 0xff }),
        ("subtext0"@, Color { r: 0xa6, g: 0xad, b: 0xc8, a: 0xff }),
        ("subtext1"@, Color { r: 0xba, g: 0xc2, b: 0xde, a: 0xff }),
        ("subtext2"@, Color { r: 0xcd, g: 0xd6, b: 0xf4, a: 0xff }),
        ("text"@, Color { r: 0xf0, g: 0xf4, b: 0xff, a: 0xff }),
        ("lavender"@, Color { r: 0xb4, g: 0xbe, b: 0xfe, a: 0xff }),
        ("lavenderDark"@, Color { r: 0x7f, g: 0x8c, b: 0xfe, a: 0xff }),
        ("blue"@, Color { r: 0x89, g: 0xb4, b: 0xfa, a: 0xff }),
        ("blueDark"@, Color { r: 0x5f, g: 0x8c, b: 0xfb, a: 0xff }),
        ("sapphire"@, Color { r: 0x74, g: 0xc7, b: 0xec, a: 0xff }),
        ("sapphireDark"@, Color { r: 0x4a, g: 0x9e, b: 0xdc, a: 0xff }),
        ("sky"@, Color { r: 0x89, g: 0xdc, b: 0xeb, a: 0xff }),
        ("skyDark"@, Color { r: 0x5f, g: 0x9e, b: 0xdc, a: 0xff }),
        ("teal"@, Color { r: 0x94, g: 0xe2, b: 0xd5, a: 0xff }),
        ("tealDark"@, Color { r: 0x5f, g: 0xb9, b: 0xa8, a: 0xff }),
        ("green"@, Color { r: 0xa6, g: 0xe3, b: 0xa1, a: 0xff }),
        ("greenDark"@, Color { r: 0x5f, g: 0xbf, b: 0x6b, a: 0xff }),
        ("yellow"@, Color { r: 0xf9, g: 0xe2, b: 0xaf, a: 0xff }),
        ("yellowDark"@, Color { r: 0xf5, g: 0xc7, b: 0x7b, a: 0xff }),
        ("peach"@, Color { r: 0xfa, g: 0xb3, b: 0x87, a: 0xff }),
        ("peachDark"@, Color { r: 0xf5, g: 0xa8, b: 0x7b, a: 0xff }),
        ("maroon"@, Color { r: 0xeb, g: 0xa0, b: 0xac, a: 0xff }),
        ("maroonDark"@, Color { r: 0xc9, g: 0x7b, b: 0x84, a: 0xff }),
        ("red"@, Color { r: 0xf3, g: 0x8b, b: 0xa8, a: 0xff }),
        ("redDark"@, Color { r: 0xc9, g: 0x7b, b: 0x84, a: 0xff }),
        ("mauve"@, Color { r: 0xcb, g: 0xa6, b: 0xf7, a: 0xff }),
        ("mauveDark"@, Color { r: 0xa1, g: 0x7b, b: 0xe3, a: 0xff }),
        ("pink"@, Color { r: 0xf5, g: 0xc2, b: 0xe7, a: 0xff }),
        ("flamingo"@, Color { r: 0xf2, g: 0xcd, b: 0xcd, a: 0xff }),
        ("rosewater"@, Color { r: 0xf5, g: 0xe0, b: 0xdc, a: 0xff }),
        ("cyan"@, Color { r: 0xbe, g: 0xe4, b: 0xed, a: 0xff }),
    ]
}

/// No name occurs twice in the palette: each name stands for one colour, as
/// in the table that a palette is read from.
pub open spec fn names_differ(palette: Seq<(Seq<char>, Color)>) -> bool {
    forall|i: int, j: int|
        0 <= i < j < palette.len() ==> (#[trigger] palette[i]).0 != (#[trigger] palette[j]).0
}

/// What is looked at of a name to tell it from another: its length, its
/// first, its third and its last character. Names that differ in one of
/// these differ.
spec fn mark(name: Seq<char>) -> (nat, char, char, char) {
    (name.len(), name[0], name[2], name[name.len() - 1])
}

/// None of the first `count` colours of the palette has a name of this mark.
spec fn absent_before(
    palette: Seq<(Seq<char>, Color)>,
    of_name: (nat, char, char, char),
    count: int,
) -> bool
    decreases count,
{
    count <= 0 || (mark(palette[count - 1].0) != of_name && absent_before(
        palette,
        of_name,
        count - 1,
    ))
}

/// Each of the first `count` colours of the palette has a name whose mark
/// none before it has.
spec fn names_are_new(palette: Seq<(Seq<char>, Color)>, count: int) -> bool
    decreases count,
{
    count <= 0 || (absent_before(palette, mark(palette[count - 1].0), count - 1)
        && names_are_new(palette, count - 1))
}

proof fn lemma_absent_before(
    palette: Seq<(Seq<char>, Color)>,
    of_name: (nat, char, char, char),
    count: int,
    i: int,
)
    requires
        absent_before(palette, of_name, count),
        0 <= i < count,
    ensures
        mark(palette[i].0) != of_name,
    decreases count,
{
    if i < count - 1 {
        lemma_absent_before(palette, of_name, count - 1, i);
    }
}

proof fn lemma_names_are_new(palette: Seq<(Seq<char>, Color)>, count: int)
    requires
        names_are_new(palette, count),
    ensures
        forall|i: int, j: int|
            0 <= i < j < count ==> (#[trigger] palette[i]).0 != (#[trigger] palette[j]).0,
    decreases count,
{
    if count > 0 {
        lemma_names_are_new(palette, count - 1);
        assert forall|i: int, j: int| 0 <= i < j < count implies (#[trigger] palette[i]).0 != (
        #[trigger] palette[j]).0 by {
            if j == count - 1 {
                lemma_absent_before(palette, mark(palette[count - 1].0), count - 1, i);
            }
        }
    }
}

/// No name occurs twice in the palette that a theme has where nothing else is
/// set.
pub proof fn lemma_default_names_differ()
    ensures
        names_differ(default_palette()),
{
    reveal_strlit("crust");
    reveal_strlit("mantle");
    reveal_strlit("base");
    reveal_strlit("core");
    reveal_strlit("surface0");
    reveal_strlit("surface1");
    reveal_strlit("surface2");
    reveal_strlit("overlay0");
    reveal_strlit("overlay1");
    reveal_strlit("overlay2");
    reveal_strlit("subtext0");
    reveal_strlit("subtext1");
    reveal_strlit("subtext2");
    reveal_strlit("text");
    reveal_strlit("lavender");
    reveal_strlit("lavenderDark");
    reveal_strlit("blue");
    reveal_strlit("blueDark");
    reveal_strlit("sapphire");
    reveal_strlit("sapphireDark");
    reveal_strlit("sky");
    reveal_strlit("skyDark");
    reveal_strlit("teal");
    reveal_strlit("tealDark");
    reveal_strlit("green");
    reveal_strlit("greenDark");
    reveal_strlit("yellow");
    reveal_strlit("yellowDark");
    reveal_strlit("peach");
    reveal_strlit("peachDark");
    reveal_strlit("maroon");
    reveal_strlit("maroonDark");
    reveal_strlit("red");
    reveal_strlit("redDark");
    reveal_strlit("mauve");
    reveal_strlit("mauveDark");
    reveal_strlit("pink");
    reveal_strlit("flamingo");
    reveal_strlit("rosewater");
    reveal_strlit("cyan");
    let palette = default_palette();
    assert(palette.len() == 40);
    assert(names_are_new(palette, 40)) by {
        reveal_with_fuel(absent_before, 41);
        reveal_with_fuel(names_are_new, 41);
    }
    lemma_names_are_new(palette, 40);
}

impl Theme {
    /// Every setting has the value that it has where the user sets nothing.
    pub open spec fn is_default(self) -> bool {
        &&& self.font@ == "IBM Plex Mono"@
        &&& self.border_radius == 6_000
        &&& palette_view(self.colors@) =~= default_palette()
    }

    /// The colour that `color` stands for in this theme: a colour that is
    /// written out stands for itself, a name for the first colour that the
    /// palette holds under it, and for none where the palette has no such
    /// name.
    pub open spec fn resolved(self, color: ColorNameOrHex) -> Option<Color> {
        match color {
            ColorNameOrHex::Name(name) => {
                let at = first_named(self.colors@, name@, 0);
                if at < self.colors@.len() {
                    Some(self.colors@[at].1)
                } else {
                    None
                }
            },
            ColorNameOrHex::Hex(color) => Some(color),
        }
    }

    /// No name occurs twice in the palette of this theme.
    pub open spec fn has_distinct_names(self) -> bool {
        names_differ(palette_view(self.colors@))
    }

    /// Where no name occurs twice, a name stands for the colour that the
    /// palette holds under it, wherever in the palette that is.
    pub proof fn lemma_name_stands_for_its_colour(self, name: String, at: int)
        requires
            self.has_distinct_names(),
            0 <= at < self.colors@.len(),
            self.colors@[at].0@ == name@,
        ensures
            self.resolved(ColorNameOrHex::Name(name)) == Some(self.colors@[at].1),
    {
        lemma_first_named(self.colors@, name@, 0);
        let first = first_named(self.colors@, name@, 0);
        assert(first <= at) by {
            if at < first {
                assert(self.colors@[at].0@ != name@);
            }
        }
        if first < at {
            assert(palette_view(self.colors@)[first].0 != palette_view(self.colors@)[at].0);
        }
    }

    /// Finds the colour that `color` stands for in this theme.
    pub fn resolve_color(&self, color: &ColorNameOrHex) -> (resolved: Option<Color>)
        ensures
            resolved == self.resolved(*color),
    {
        match color {
            ColorNameOrHex::Name(name) => lookup(&self.colors, name),
            ColorNameOrHex::Hex(color) => Some(*color),
        }
    }
}

/// The place that `first_named` gives is that of a colour held under `name`,
/// and no colour from `from` up to it is held under `name`.
proof fn lemma_first_named(colors: Seq<(String, Color)>, name: Seq<char>, from: int)
    requires
        0 <= from,
    ensures
        from <= first_named(colors, name, from) || first_named(colors, name, from) == colors.len(),
        first_named(colors, name, from) <= colors.len(),
        first_named(colors, name, from) < colors.len() ==> colors[first_named(
            colors,
            name,
            from,
        )].0@ == name,
        forall|i: int|
            from <= i < first_named(colors, name, from) && i < colors.len() ==> (
            #[trigger] colors[i]).0@ != name,
    decreases colors.len() - from,
{
    if from < colors.len() && colors[from].0@ != name {
        lemma_first_named(colors, name, from + 1);
    }
}

/// Finds the first colour that the palette holds under `name`.
fn lookup(colors: &Vec<(String, Color)>, name: &String) -> (found: Option<Color>)
    ensures
        found == (if first_named(colors@, name@, 0) < colors@.len() {
            Some(colors@[first_named(colors@, name@, 0)].1)
        } else {
            None
        }),
{
    let mut at: usize = 0;
    while at < colors.len()
        invariant
            at <= colors@.len(),
            first_named(colors@, name@, 0) == first_named(colors@, name@, at as int),
        decreases colors@.len() - at,
    {
        if colors[at].0 == *name {
            return Some(colors[at].1);
        }
        at += 1;
    }
    None
}

impl Default for Theme {
    fn default() -> (theme: Self)
        ensures
            theme.is_default(),
            theme.has_distinct_names(),
    {
        proof {
            lemma_default_names_differ();
        }
        Self { font: "IBM Plex Mono".to_owned(), border_radius: 6_000, colors: default_colors() }
    }
}

/// Builds the palette that a theme has where nothing else is set.
fn default_colors() -> (colors: Vec<(String, Color)>)
    ensures
        palette_view(colors@) == default_palette(),
{
    let mut colors: Vec<(String, Color)> = Vec::new();
    colors.push(("crust".to_owned(), Color::from_rgb8(0x11, 0x11, 0x1b)));
    colors.push(("mantle".to_owned(), Color::from_rgb8(0x18, 0x18, 0x25)));
    colors.push(("base".to_owned(), Color::from_rgb8(0x1e, 0x1e, 0x2e)));
    colors.push(("core".to_owned(), Color::from_rgb8(0x2c, 0x2c, 0x3f)));
    colors.push(("surface0".to_owned(), Color::from_rgb8(0x31, 0x32, 0x44)));
    colors.push(("surface1".to_owned(), Color::from_rgb8(0x45, 0x47, 0x5a)));
    colors.push(("surface2".to_owned(), Color::from_rgb8(0x58, 0x5b, 0x70)));
    colors.push(("overlay0".to_owned(), Color::from_rgb8(0x6c, 0x70, 0x86)));
    colors.push(("overlay1".to_owned(), Color::from_rgb8(0x7f, 0x84, 0x9c)));
    colors.push(("overlay2".to_owned(), Color::from_rgb8(0x93, 0x99, 0xb2)));
    colors.push(("subtext0".to_owned(), Color::from_rgb8(0xa6, 0xad, 0xc8)));
    colors.push(("subtext1".to_owned(), Color::from_rgb8(0xba, 0xc2, 0xde)));
    colors.push(("subtext2".to_owned(), Color::from_rgb8(0xcd, 0xd6, 0xf4)));
    colors.push(("text".to_owned(), Color::from_rgb8(0xf0, 0xf4, 0xff)));
    colors.push(("lavender".to_owned(), Color::from_rgb8(0xb4, 0xbe, 0xfe)));
    colors.push(("lavenderDark".to_owned(), Color::from_rgb8(0x7f, 0x8c, 0xfe)));
    colors.push(("blue".to_owned(), Color::from_rgb8(0x89, 0xb4, 0xfa)));
    colors.push(("blueDark".to_owned(), Color::from_rgb8(0x5f, 0x8c, 0xfb)));
    colors.push(("sapphire".to_owned(), Color::from_rgb8(0x74, 0xc7, 0xec)));
    colors.push(("sapphireDark".to_owned(), Color::from_rgb8(0x4a, 0x9e, 0xdc)));
    colors.push(("sky".to_owned(), Color::from_rgb8(0x89, 0xdc, 0xeb)));
    colors.push(("skyDark".to_owned(), Color::from_rgb8(0x5f, 0x9e, 0xdc)));
    colors.push(("teal".to_owned(), Color::from_rgb8(0x94, 0xe2, 0xd5)));
    colors.push(("tealDark".to_owned(), Color::from_rgb8(0x5f, 0xb9, 0xa8)));
    colors.push(("green".to_owned(), Color::from_rgb8(0xa6, 0xe3, 0xa1)));
    colors.push(("greenDark".to_owned(), Color::from_rgb8(0x5f, 0xbf, 0x6b)));
    colors.push(("yellow".to_owned(), Color::from_rgb8(0xf9, 0xe2, 0xaf)));
    colors.push(("yellowDark".to_owned(), Color::from_rgb8(0xf5, 0xc7, 0x7b)));
    colors.push(("peach".to_owned(), Color::from_rgb8(0xfa, 0xb3, 0x87)));
    colors.push(("peachDark".to_owned(), Color::from_rgb8(0xf5, 0xa8, 0x7b)));
    colors.push(("maroon".to_owned(), Color::from_rgb8(0xeb, 0xa0, 0xac)));
    colors.push(("maroonDark".to_owned(), Color::from_rgb8(0xc9, 0x7b, 0x84)));
    colors.push(("red".to_owned(), Color::from_rgb8(0xf3, 0x8b, 0xa8)));
    colors.push(("redDark".to_owned(), Color::from_rgb8(0xc9, 0x7b, 0x84)));
    colors.push(("mauve".to_owned(), Color::from_rgb8(0xcb, 0xa6, 0xf7)));
    colors.push(("mauveDark".to_owned(), Color::from_rgb8(0xa1, 0x7b, 0xe3)));
    colors.push(("pink".to_owned(), Color::from_rgb8(0xf5, 0xc2, 0xe7)));
    colors.push(("flamingo".to_owned(), Color::from_rgb8(0xf2, 0xcd, 0xcd)));
    colors.push(("rosewater".to_owned(), Color::from_rgb8(0xf5, 0xe0, 0xdc)));
    colors.push(("cyan".to_owned(), Color::from_rgb8(0xbe, 0xe4, 0xed)));
    colors
}

/// The colours of the pills of the workspaces, one for each state of a
/// workspace.
#[derive(Debug)]
pub struct WorkspaceColors {
    pub active: ColorNameOrHex,
    pub has_windows: ColorNameOrHex,
    pub normal: ColorNameOrHex,
}

impl WorkspaceColors {
    /// Every setting has the value that it has where the user sets nothing.
    pub open spec fn is_default(self) -> bool {
        &&& self.active.is_name("blue"@)
        &&& self.has_windows.is_name("blue"@)
        &&& self.normal.is_name("surface2"@)
    }
}

impl Default for WorkspaceColors {
    fn default() -> (colors: Self)
        ensures
            colors.is_default(),
    {
        Self {
            active: ColorNameOrHex::name("blue"),
            has_windows: ColorNameOrHex::name("blue"),
            normal: ColorNameOrHex::name("surface2"),
        }
    }
}

/// The settings of the strip of workspaces.
#[derive(Debug)]
pub struct Workspaces {
    pub color: WorkspaceColors,
}

impl Workspaces {
    /// Every setting has the value that it has where the user sets nothing.
    pub open spec fn is_default(self) -> bool {
        self.color.is_default()
    }
}

impl Default for Workspaces {
    fn default() -> (workspaces: Self)
        ensures
            workspaces.is_default(),
    {
        Self { color: WorkspaceColors::default() }
    }
}

/// Everything that the user can set.
#[derive(Debug)]
pub struct Config {
    pub general: General,
    pub theme: Theme,
    pub bar: Bar,
}

impl Config {
    /// Every setting has the value that it has where the user sets nothing.
    pub open spec fn is_default(self) -> bool {
        &&& self.general.is_default()
        &&& self.theme.is_default()
        &&& self.bar.is_default()
    }
}

impl Default for Config {
    fn default() -> (settings: Self)
        ensures
            settings.is_default(),
    {
        Self {
            general: General::default(),
            theme: Theme::default(),
            bar: Bar::default(),
        }
    }
}

/// The settings that no single module owns. The place of the user is
/// given in millionths of a degree.
#[derive(Debug)]
pub struct General {
    pub time_format: TimeFormat,
    pub unit: Unit,
    /// Get from <https://www.latlong.net/>
    pub lat: i64,
    /// Get from <https://www.latlong.net/>
    pub lon: i64,
    pub debug: bool,
}

impl General {
    /// Every setting has the value that it has where the user sets nothing.
    pub open spec fn is_default(self) -> bool {
        &&& self.time_format == TimeFormat::_12h
        &&& self.unit == Unit::Metric
        &&& self.lat == 0
        &&& self.lon == 0
        &&& !self.debug
    }
}

impl Default for General {
    fn default() -> (settings: Self)
        ensures
            settings.is_default(),
    {
        Self {
            time_format: TimeFormat::default(),
            unit: Unit::default(),
            lat: 0,
            lon: 0,
            debug: false,
        }
    }
}

/// The settings of the bar and of each of its modules.
#[derive(Debug)]
pub struct Bar {
    pub theme: BarTheme,
    pub modules: Modules,
    pub app_launcher: AppLauncher,
    pub battery: Battery,
    pub clock: Clock,
    pub notifications: Notifications,
    pub quick_settings: QuickSettings,
    pub sysmon: SysMon,
    pub todo: Todo,
    pub twitch: Twitch,
    pub workspaces: Workspaces,
}

impl Bar {
    /// Every setting has the value that it has where the user sets nothing.
    pub open spec fn is_default(self) -> bool {
        &&& self.theme.is_default()
        &&& self.modules.is_default()
        &&& self.app_launcher.is_default()
        &&& self.battery.is_default()
        &&& self.clock.is_default()
        &&& self.notifications.is_default()
        &&& self.quick_settings.is_default()
        &&& self.sysmon.is_default()
        &&& self.todo.is_default()
        &&& self.twitch.is_default()
        &&& self.workspaces.is_default()
    }
}

impl Default for Bar {
    fn default() -> (settings: Self)
        ensures
            settings.is_default(),
    {
        Self {
            theme: BarTheme::default(),
            modules: Modules::default(),
            app_launcher: AppLauncher::default(),
            battery: Battery::default(),
            clock: Clock::default(),
            notifications: Notifications::default(),
            quick_settings: QuickSettings::default(),
            sysmon: SysMon::default(),
            todo: Todo::default(),
            twitch: Twitch::default(),
            workspaces: Workspaces::default(),
        }
    }
}

/// The colours of the bar itself.
#[derive(Debug)]
pub struct BarTheme {
    pub bg: ColorNameOrHex,
    pub section_bg: ColorNameOrHex,
    pub fg: ColorNameOrHex,
}

impl BarTheme {
    /// Every setting has the value that it has where the user sets nothing.
    pub open spec fn is_default(self) -> bool {
        &&& self.bg.is_name("base"@)
        &&& self.section_bg.is_name("core"@)
        &&& self.fg.is_name("text"@)
    }
}

impl Default for BarTheme {
    fn default() -> (settings: Self)
        ensures
            settings.is_default(),
    {
        Self {
            bg: ColorNameOrHex::name("base"),
            section_bg: ColorNameOrHex::name("core"),
            fg: ColorNameOrHex::name("text"),
        }
    }
}

/// An icon: the name of its drawing, and the colour it is drawn in.
#[derive(Debug)]
pub struct Icon {
    pub name: String,
    pub color: ColorNameOrHex,
}

impl Icon {
    /// This icon is the drawing `name` in the colour that the palette holds
    /// under `color`.
    pub open spec fn is(self, name: Seq<char>, color: Seq<char>) -> bool {
        self.name@ == name && self.color.is_name(color)
    }

    /// This icon is the drawing `name` in the colour `color`.
    pub open spec fn is_hex(self, name: Seq<char>, color: Color) -> bool {
        self.name@ == name && self.color == ColorNameOrHex::Hex(color)
    }

    pub fn new(name: &str, color: ColorNameOrHex) -> (icon: Self)
        ensures
            icon.name@ == name@,
            icon.color == color,
    {
        Self { name: name.to_owned(), color }
    }
}

/// The look of a text.
#[derive(Debug)]
pub struct Text {
    pub color: Option<ColorNameOrHex>,
}

impl Text {
    /// Every setting has the value that it has where the user sets nothing.
    pub open spec fn is_default(self) -> bool {
        &&& self.color is None
    }
}

impl Default for Text {
    fn default() -> (settings: Self)
        ensures
            settings.is_default(),
    {
        Self {
            color: None,
        }
    }
}

/// The settings of the application launcher.
#[derive(Debug)]
pub struct AppLauncher {
    pub icon: Icon,
    pub mouse_commands: MouseCommands,
}

impl AppLauncher {
    /// Every setting has the value that it has where the user sets nothing.
    pub open spec fn is_default(self) -> bool {
        &&& self.icon.is("nix-snowflake-white"@, "text"@)
        &&& self.mouse_commands.on_clicked is None
        &&& text_is(self.mouse_commands.on_primary_click, "tofi-drun"@)
        &&& self.mouse_commands.on_middle_click is None
        &&& self.mouse_commands.on_secondary_click is None
        &&& self.mouse_commands.on_scroll_up is None
        &&& self.mouse_commands.on_scroll_down is None
    }
}

impl Default for AppLauncher {
    fn default() -> (settings: Self)
        ensures
            settings.is_default(),
    {
        Self {
            icon: Icon::new("nix-snowflake-white", ColorNameOrHex::name("text")),
            mouse_commands: MouseCommands {
                on_clicked: None,
                on_primary_click: Some("tofi-drun".to_owned()),
                on_middle_click: None,
                on_secondary_click: None,
                on_scroll_up: None,
                on_scroll_down: None,
            },
        }
    }
}

/// The settings of the battery module.
#[derive(Debug)]
pub struct Battery {
    pub ramp_icons: Vec<Icon>,
    pub charging_icon: Icon,
    pub full_threshold: u32,
    pub mouse_commands: MouseCommands,
}

impl Battery {
    /// Every setting has the value that it has where the user sets nothing.
    pub open spec fn is_default(self) -> bool {
        &&& self.ramp_icons@.len() == 4
        &&& self.ramp_icons@[0].is("battery-4"@, "green"@)
        &&& self.ramp_icons@[1].is("battery-3"@, "green"@)
        &&& self.ramp_icons@[2].is("battery-2"@, "yellow"@)
        &&& self.ramp_icons@[3].is("battery-1"@, "red"@)
        &&& self.charging_icon.is("battery-charging"@, "green"@)
        &&& self.full_threshold == 97
        &&& self.mouse_commands.is_default()
    }
}

impl Default for Battery {
    fn default() -> (settings: Self)
        ensures
            settings.is_default(),
    {
        Self {
            ramp_icons: vec![
                Icon::new("battery-4", ColorNameOrHex::name("green")),
                Icon::new("battery-3", ColorNameOrHex::name("green")),
                Icon::new("battery-2", ColorNameOrHex::name("yellow")),
                Icon::new("battery-1", ColorNameOrHex::name("red")),
            ],
            charging_icon: Icon::new("battery-charging", ColorNameOrHex::name("green")),
            full_threshold: 97,
            mouse_commands: MouseCommands::default(),
        }
    }
}

/// The settings of the clock.
#[derive(Debug)]
pub struct Clock {
    pub icon: Icon,
}

impl Clock {
    /// Every setting has the value that it has where the user sets nothing.
    pub open spec fn is_default(self) -> bool {
        &&& self.icon.is("clock"@, "text"@)
    }
}

impl Default for Clock {
    fn default() -> (settings: Self)
        ensures
            settings.is_default(),
    {
        Self {
            icon: Icon::new("clock", ColorNameOrHex::name("text")),
        }
    }
}

/// The settings of the notifications module.
#[derive(Debug)]
pub struct Notifications {
    pub segments: Vec<NotificationSegment>,
    pub weather: Weather,
    pub todoist: Todoist,
    pub github: Github,
}

impl Notifications {
    /// Every setting has the value that it has where the user sets nothing.
    pub open spec fn is_default(self) -> bool {
        &&& self.segments@.len() == 3
        &&& self.segments@[0] == NotificationSegment::Weather
        &&& self.segments@[1] == NotificationSegment::Todoist
        &&& self.segments@[2] == NotificationSegment::Github
        &&& self.weather.is_default()
        &&& self.todoist.is_default()
        &&& self.github.is_default()
    }
}

impl Default for Notifications {
    fn default() -> (settings: Self)
        ensures
            settings.is_default(),
    {
        Self {
            segments: vec![
                NotificationSegment::Weather,
                NotificationSegment::Todoist,
                NotificationSegment::Github,
            ],
            weather: Weather::default(),
            todoist: Todoist::default(),
            github: Github::default(),
        }
    }
}

/// The settings of the weather segment.
#[derive(Debug)]
pub struct Weather {
    pub temperature: TemperatureType,
    pub icon: WeatherIcon,
    pub text: Option<Text>,
    pub mouse_commands: MouseCommands,
}

impl Weather {
    /// Every setting has the value that it has where the user sets nothing.
    pub open spec fn is_default(self) -> bool {
        &&& self.temperature == TemperatureType::Apparent
        &&& self.icon.is_default()
        &&& self.text is None
        &&& self.mouse_commands.on_clicked is None
        &&& text_is(self.mouse_commands.on_primary_click, "xdg-open https://merrysky.net"@)
        &&& self.mouse_commands.on_middle_click is None
        &&& self.mouse_commands.on_secondary_click is None
        &&& self.mouse_commands.on_scroll_up is None
        &&& self.mouse_commands.on_scroll_down is None
    }
}

impl Default for Weather {
    fn default() -> (settings: Self)
        ensures
            settings.is_default(),
    {
        Self {
            temperature: TemperatureType::Apparent,
            icon: WeatherIcon::default(),
            text: None,
            mouse_commands: MouseCommands {
                on_clicked: None,
                on_primary_click: Some("xdg-open https://merrysky.net".to_owned()),
                on_middle_click: None,
                on_secondary_click: None,
                on_scroll_up: None,
                on_scroll_down: None,
            },
        }
    }
}

/// The look of the weather icon.
#[derive(Debug)]
pub struct WeatherIcon {
    pub color: WeatherColors,
}

impl WeatherIcon {
    /// Every setting has the value that it has where the user sets nothing.
    pub open spec fn is_default(self) -> bool {
        &&& self.color.is_default()
    }
}

impl Default for WeatherIcon {
    fn default() -> (settings: Self)
        ensures
            settings.is_default(),
    {
        Self {
            color: WeatherColors::default(),
        }
    }
}

/// The colours of the weather icon, by the weather.
#[derive(Debug)]
pub struct WeatherColors {
    pub day: ColorNameOrHex,
    pub night: ColorNameOrHex,
    pub rain: ColorNameOrHex,
    pub snow: ColorNameOrHex,
    pub fog: ColorNameOrHex,
    pub wind: ColorNameOrHex,
    pub cloud: ColorNameOrHex,
    pub error: ColorNameOrHex,
}

impl WeatherColors {
    /// Every setting has the value that it has where the user sets nothing.
    pub open spec fn is_default(self) -> bool {
        &&& self.day.is_name("yellow"@)
        &&& self.night.is_name("blue"@)
        &&& self.rain.is_name("blue"@)
        &&& self.snow.is_name("text"@)
        &&& self.fog.is_name("text"@)
        &&& self.wind.is_name("text"@)
        &&& self.cloud.is_name("text"@)
        &&& self.error.is_name("red"@)
    }
}

impl Default for WeatherColors {
    fn default() -> (settings: Self)
        ensures
            settings.is_default(),
    {
        Self {
            day: ColorNameOrHex::name("yellow"),
            night: ColorNameOrHex::name("blue"),
            rain: ColorNameOrHex::name("blue"),
            snow: ColorNameOrHex::name("text"),
            fog: ColorNameOrHex::name("text"),
            wind: ColorNameOrHex::name("text"),
            cloud: ColorNameOrHex::name("text"),
            error: ColorNameOrHex::name("red"),
        }
    }
}

/// The settings of the Todoist segment.
#[derive(Debug)]
pub struct Todoist {
    pub icon: Icon,
    pub text: Option<Text>,
    /// Get from <https://todoist.com/prefs/integrations>
    pub api_token: String,
    pub mouse_commands: MouseCommands,
}

impl Todoist {
    /// Every setting has the value that it has where the user sets nothing.
    pub open spec fn is_default(self) -> bool {
        &&& self.icon.is("checkbox"@, "red"@)
        &&& self.text is None
        &&& self.api_token@ == Seq::<char>::empty()
        &&& self.mouse_commands.is_default()
    }
}

impl Default for Todoist {
    fn default() -> (settings: Self)
        ensures
            settings.is_default(),
    {
        Self {
            icon: Icon::new("checkbox", ColorNameOrHex::name("red")),
            text: None,
            api_token: String::new(),
            mouse_commands: MouseCommands::default(),
        }
    }
}

/// The settings of the GitHub segment.
#[derive(Debug)]
pub struct Github {
    pub icon: Icon,
    pub text: Option<Text>,
    /// Classic token with the 'notifications' scope
    pub api_token: String,
    pub mouse_commands: MouseCommands,
}

impl Github {
    /// Every setting has the value that it has where the user sets nothing.
    pub open spec fn is_default(self) -> bool {
        &&& self.icon.is("brand-github"@, "text"@)
        &&& self.text is None
        &&& self.api_token@ == Seq::<char>::empty()
        &&& self.mouse_commands.on_clicked is None
        &&& text_is(
            self.mouse_commands.on_primary_click,
            "xdg-open https://github.com/notifications"@,
        )
        &&& self.mouse_commands.on_middle_click is None
        &&& self.mouse_commands.on_secondary_click is None
        &&& self.mouse_commands.on_scroll_up is None
        &&& self.mouse_commands.on_scroll_down is None
    }
}

impl Default for Github {
    fn default() -> (settings: Self)
        ensures
            settings.is_default(),
    {
        Self {
            icon: Icon::new("brand-github", ColorNameOrHex::name("text")),
            text: None,
            api_token: String::new(),
            mouse_commands: MouseCommands {
                on_clicked: None,
                on_primary_click: Some("xdg-open https://github.com/notifications".to_owned()),
                on_middle_click: None,
                on_secondary_click: None,
                on_scroll_up: None,
                on_scroll_down: None,
            },
        }
    }
}

/// The settings of the quick settings module.
#[derive(Debug)]
pub struct QuickSettings {
    pub segments: Vec<QuickSettingSegment>,
    pub tray: Tray,
    pub night_light: NightLight,
    pub brightness: Brightness,
    pub caffeine: Caffeine,
    pub dnd: Dnd,
    pub mic: Mic,
    pub notifs: Notifs,
    pub volume: Volume,
    pub network: Network,
    pub battery: QuickSettingsBattery,
    pub toggle: Toggle,
}

impl QuickSettings {
    /// Every setting has the value that it has where the user sets nothing.
    pub open spec fn is_default(self) -> bool {
        &&& self.segments@.len() == 9
        &&& self.segments@[0] == QuickSettingSegment::Tray
        &&& self.segments@[1] == QuickSettingSegment::NightLight
        &&& self.segments@[2] == QuickSettingSegment::Brightness
        &&& self.segments@[3] == QuickSettingSegment::Caffeine
        &&& self.segments@[4] == QuickSettingSegment::Dnd
        &&& self.segments@[5] == QuickSettingSegment::Mic
        &&& self.segments@[6] == QuickSettingSegment::Volume
        &&& self.segments@[7] == QuickSettingSegment::Network
        &&& self.segments@[8] == QuickSettingSegment::Toggle
        &&& self.tray.is_default()
        &&& self.night_light.is_default()
        &&& self.brightness.is_default()
        &&& self.caffeine.is_default()
        &&& self.dnd.is_default()
        &&& self.mic.is_default()
        &&& self.notifs.is_default()
        &&& self.volume.is_default()
        &&& self.network.is_default()
        &&& self.battery.is_default()
        &&& self.toggle.is_default()
    }
}

impl Default for QuickSettings {
    fn default() -> (settings: Self)
        ensures
            settings.is_default(),
    {
        Self {
            segments: vec![
                QuickSettingSegment::Tray,
                QuickSettingSegment::NightLight,
                QuickSettingSegment::Brightness,
                QuickSettingSegment::Caffeine,
                QuickSettingSegment::Dnd,
                QuickSettingSegment::Mic,
                QuickSettingSegment::Volume,
                QuickSettingSegment::Network,
                QuickSettingSegment::Toggle,
            ],
            tray: Tray::default(),
            night_light: NightLight::default(),
            brightness: Brightness::default(),
            caffeine: Caffeine::default(),
            dnd: Dnd::default(),
            mic: Mic::default(),
            notifs: Notifs::default(),
            volume: Volume::default(),
            network: Network::default(),
            battery: QuickSettingsBattery::default(),
            toggle: Toggle::default(),
        }
    }
}

/// The settings of the tray: the applications it passes over, and the icons
/// it shows for the others, by the name of the application.
#[derive(Debug)]
pub struct Tray {
    pub ignored_apps: Vec<String>,
    pub app_icon_mappings: Vec<(String, Icon)>,
}

impl Tray {
    /// Every setting has the value that it has where the user sets nothing.
    pub open spec fn is_default(self) -> bool {
        &&& self.ignored_apps@.len() == 0
        &&& self.app_icon_mappings@.len() == 0
    }
}

impl Default for Tray {
    fn default() -> (settings: Self)
        ensures
            settings.is_default(),
    {
        Self {
            ignored_apps: Vec::new(),
            app_icon_mappings: Vec::new(),
        }
    }
}

/// The settings of the night light.
#[derive(Debug)]
pub struct NightLight {
    pub off_icon: Icon,
    pub on_icon: Icon,
    pub forced_icon: Icon,
    pub day_temp: u32,
    pub night_temp: u32,
    pub fade_duration_minutes: u32,
    pub mouse_commands: MouseCommands,
}

impl NightLight {
    /// Every setting has the value that it has where the user sets nothing.
    pub open spec fn is_default(self) -> bool {
        &&& self.off_icon.is("moon-off"@, "yellow"@)
        &&& self.on_icon.is("moon"@, "yellow"@)
        &&& self.forced_icon.is("moon-start"@, "yellow"@)
        &&& self.day_temp == 6500
        &&& self.night_temp == 4000
        &&& self.fade_duration_minutes == 30
        &&& self.mouse_commands.is_default()
    }
}

impl Default for NightLight {
    fn default() -> (settings: Self)
        ensures
            settings.is_default(),
    {
        Self {
            off_icon: Icon::new("moon-off", ColorNameOrHex::name("yellow")),
            on_icon: Icon::new("moon", ColorNameOrHex::name("yellow")),
            forced_icon: Icon::new("moon-start", ColorNameOrHex::name("yellow")),
            day_temp: 6500,
            night_temp: 4000,
            fade_duration_minutes: 30,
            mouse_commands: MouseCommands::default(),
        }
    }
}

/// The settings of the brightness control. The step is given in thousandths
/// of the full range.
#[derive(Debug)]
pub struct Brightness {
    pub ramp_icons: Vec<Icon>,
    pub step: u32,
    pub mouse_commands: MouseCommands,
}

impl Brightness {
    /// Every setting has the value that it has where the user sets nothing.
    pub open spec fn is_default(self) -> bool {
        &&& self.ramp_icons@.len() == 3
        &&& self.ramp_icons@[0].is("brightness-down"@, "yellow"@)
        &&& self.ramp_icons@[1].is("brightness-half"@, "yellow"@)
        &&& self.ramp_icons@[2].is("brightness-up"@, "yellow"@)
        &&& self.step == 50
        &&& self.mouse_commands.is_default()
    }
}

impl Default for Brightness {
    fn default() -> (settings: Self)
        ensures
            settings.is_default(),
    {
        Self {
            ramp_icons: vec![
                Icon::new("brightness-down", ColorNameOrHex::name("yellow")),
                Icon::new("brightness-half", ColorNameOrHex::name("yellow")),
                Icon::new("brightness-up", ColorNameOrHex::name("yellow")),
            ],
            step: 50,
            mouse_commands: MouseCommands::default(),
        }
    }
}

/// The settings of the idle inhibitor.
#[derive(Debug)]
pub struct Caffeine {
    pub icon: Icon,
    pub active_icon: Icon,
    pub toggle_cmd: String,
    pub mouse_commands: MouseCommands,
}

impl Caffeine {
    /// Every setting has the value that it has where the user sets nothing.
    pub open spec fn is_default(self) -> bool {
        &&& self.icon.is("mug-off"@, "blue"@)
        &&& self.active_icon.is("coffee"@, "cyan"@)
        &&& self.toggle_cmd@ == "wlinhibit"@
        &&& self.mouse_commands.is_default()
    }
}

impl Default for Caffeine {
    fn default() -> (settings: Self)
        ensures
            settings.is_default(),
    {
        Self {
            icon: Icon::new("mug-off", ColorNameOrHex::name("blue")),
            active_icon: Icon::new("coffee", ColorNameOrHex::name("cyan")),
            toggle_cmd: "wlinhibit".to_owned(),
            mouse_commands: MouseCommands::default(),
        }
    }
}

/// The settings of the do-not-disturb switch.
#[derive(Debug)]
pub struct Dnd {
    pub icon: Icon,
    pub dnd_icon: Icon,
    pub toggle_cmd: String,
    pub status_cmd: String,
    pub history_cmd: String,
    pub dismiss_cmd: String,
}

impl Dnd {
    /// Every setting has the value that it has where the user sets nothing.
    pub open spec fn is_default(self) -> bool {
        &&& self.icon.is("bell"@, "red"@)
        &&& self.dnd_icon.is("bell-off"@, "red"@)
        &&& self.toggle_cmd@ == "makoctl mode -t do-not-disturb"@
        &&& self.status_cmd@ == "makoctl mode"@
        &&& self.history_cmd@ == "makoctl restore"@
        &&& self.dismiss_cmd@ == "makoctl dismiss"@
    }
}

impl Default for Dnd {
    fn default() -> (settings: Self)
        ensures
            settings.is_default(),
    {
        Self {
            icon: Icon::new("bell", ColorNameOrHex::name("red")),
            dnd_icon: Icon::new("bell-off", ColorNameOrHex::name("red")),
            toggle_cmd: "makoctl mode -t do-not-disturb".to_owned(),
            status_cmd: "makoctl mode".to_owned(),
            history_cmd: "makoctl restore".to_owned(),
            dismiss_cmd: "makoctl dismiss".to_owned(),
        }
    }
}

/// The settings of the microphone control.
#[derive(Debug)]
pub struct Mic {
    pub icon: Icon,
    pub mute_icon: Icon,
    pub on_secondary_click: Option<String>,
}

impl Mic {
    /// Every setting has the value that it has where the user sets nothing.
    pub open spec fn is_default(self) -> bool {
        &&& self.icon.is("microphone"@, "pink"@)
        &&& self.mute_icon.is("microphone-off"@, "red"@)
        &&& text_is(self.on_secondary_click, "pavucontrol --tab=4"@)
    }
}

impl Default for Mic {
    fn default() -> (settings: Self)
        ensures
            settings.is_default(),
    {
        Self {
            icon: Icon::new("microphone", ColorNameOrHex::name("pink")),
            mute_icon: Icon::new("microphone-off", ColorNameOrHex::name("red")),
            on_secondary_click: Some("pavucontrol --tab=4".to_owned()),
        }
    }
}

/// The settings of the notification centre.
#[derive(Debug)]
pub struct Notifs {
    pub icon: Icon,
    pub notifs_icon: Icon,
    pub open_cmd: String,
    pub status_cmd: String,
    pub toggle_cmd: String,
}

impl Notifs {
    /// Every setting has the value that it has where the user sets nothing.
    pub open spec fn is_default(self) -> bool {
        &&& self.icon.is("bell"@, "red"@)
        &&& self.notifs_icon.is("bell-off"@, "red"@)
        &&& self.open_cmd@ == "swaync-client -t -sw"@
        &&& self.status_cmd@ == "swaync-client -D"@
        &&& self.toggle_cmd@ == "swaync-client -d"@
    }
}

impl Default for Notifs {
    fn default() -> (settings: Self)
        ensures
            settings.is_default(),
    {
        Self {
            icon: Icon::new("bell", ColorNameOrHex::name("red")),
            notifs_icon: Icon::new("bell-off", ColorNameOrHex::name("red")),
            open_cmd: "swaync-client -t -sw".to_owned(),
            status_cmd: "swaync-client -D".to_owned(),
            toggle_cmd: "swaync-client -d".to_owned(),
        }
    }
}

/// The settings of the volume control. The step is given in thousandths of
/// the full range.
#[derive(Debug)]
pub struct Volume {
    pub ramp_icons: Vec<Icon>,
    pub mute_icon: Icon,
    pub headphones_ramp: Vec<Icon>,
    pub headphones_mute: Icon,
    pub step: u32,
    pub on_secondary_click: Option<String>,
}

impl Volume {
    /// Every setting has the value that it has where the user sets nothing.
    pub open spec fn is_default(self) -> bool {
        &&& self.ramp_icons@.len() == 3
        &&& self.ramp_icons@[0].is("volume-3"@, "flamingo"@)
        &&& self.ramp_icons@[1].is("volume-2"@, "flamingo"@)
        &&& self.ramp_icons@[2].is("volume"@, "flamingo"@)
        &&& self.mute_icon.is("volume-off"@, "red"@)
        &&& self.headphones_ramp@.len() == 2
        &&& self.headphones_ramp@[0].is("headphones-off"@, "flamingo"@)
        &&& self.headphones_ramp@[1].is("headphones"@, "flamingo"@)
        &&& self.headphones_mute.is("volume-off"@, "red"@)
        &&& self.step == 50
        &&& text_is(self.on_secondary_click, "pavucontrol --tab=3"@)
    }
}

impl Default for Volume {
    fn default() -> (settings: Self)
        ensures
            settings.is_default(),
    {
        Self {
            ramp_icons: vec![
                Icon::new("volume-3", ColorNameOrHex::name("flamingo")),
                Icon::new("volume-2", ColorNameOrHex::name("flamingo")),
                Icon::new("volume", ColorNameOrHex::name("flamingo")),
            ],
            mute_icon: Icon::new("volume-off", ColorNameOrHex::name("red")),
            headphones_ramp: vec![
                Icon::new("headphones-off", ColorNameOrHex::name("flamingo")),
                Icon::new("headphones", ColorNameOrHex::name("flamingo")),
            ],
            headphones_mute: Icon::new("volume-off", ColorNameOrHex::name("red")),
            step: 50,
            on_secondary_click: Some("pavucontrol --tab=3".to_owned()),
        }
    }
}

/// The settings of the network segment.
#[derive(Debug)]
pub struct Network {
    pub ramp_icons: Vec<Icon>,
    pub off_icon: Icon,
    pub ethernet_icon: Icon,
    pub ethernet_off_icon: Icon,
    pub mouse_commands: MouseCommands,
}

impl Network {
    /// Every setting has the value that it has where the user sets nothing.
    pub open spec fn is_default(self) -> bool {
        &&& self.ramp_icons@.len() == 3
        &&& self.ramp_icons@[0].is("wifi"@, "blue"@)
        &&& self.ramp_icons@[1].is("wifi-2"@, "blue"@)
        &&& self.ramp_icons@[2].is("wifi-1"@, "blue"@)
        &&& self.off_icon.is("wifi-off"@, "red"@)
        &&& self.ethernet_icon.is("ethernet"@, "sky"@)
        &&& self.ethernet_off_icon.is("ethernet-off"@, "red"@)
        &&& self.mouse_commands.on_clicked is None
        &&& text_is(self.mouse_commands.on_primary_click, "nm-connection-editor"@)
        &&& self.mouse_commands.on_middle_click is None
        &&& self.mouse_commands.on_secondary_click is None
        &&& self.mouse_commands.on_scroll_up is None
        &&& self.mouse_commands.on_scroll_down is None
    }
}

impl Default for Network {
    fn default() -> (settings: Self)
        ensures
            settings.is_default(),
    {
        Self {
            ramp_icons: vec![
                Icon::new("wifi", ColorNameOrHex::name("blue")),
                Icon::new("wifi-2", ColorNameOrHex::name("blue")),
                Icon::new("wifi-1", ColorNameOrHex::name("blue")),
            ],
            off_icon: Icon::new("wifi-off", ColorNameOrHex::name("red")),
            ethernet_icon: Icon::new("ethernet", ColorNameOrHex::name("sky")),
            ethernet_off_icon: Icon::new("ethernet-off", ColorNameOrHex::name("red")),
            mouse_commands: MouseCommands {
                on_clicked: None,
                on_primary_click: Some("nm-connection-editor".to_owned()),
                on_middle_click: None,
                on_secondary_click: None,
                on_scroll_up: None,
                on_scroll_down: None,
            },
        }
    }
}

/// The settings of the battery segment of the quick settings.
#[derive(Debug)]
pub struct QuickSettingsBattery {
    pub ramp_icons: Vec<Icon>,
    pub charging_icon: Icon,
}

impl QuickSettingsBattery {
    /// Every setting has the value that it has where the user sets nothing.
    pub open spec fn is_default(self) -> bool {
        &&& self.ramp_icons@.len() == 5
        &&& self.ramp_icons@[0].is("battery-4"@, "green"@)
        &&& self.ramp_icons@[1].is("battery-3"@, "green"@)
        &&& self.ramp_icons@[2].is("battery-2"@, "green"@)
        &&& self.ramp_icons@[3].is("battery-1"@, "yellow"@)
        &&& self.ramp_icons@[4].is("battery"@, "red"@)
        &&& self.charging_icon.is("battery-charging"@, "yellow"@)
    }
}

impl Default for QuickSettingsBattery {
    fn default() -> (settings: Self)
        ensures
            settings.is_default(),
    {
        Self {
            ramp_icons: vec![
                Icon::new("battery-4", ColorNameOrHex::name("green")),
                Icon::new("battery-3", ColorNameOrHex::name("green")),
                Icon::new("battery-2", ColorNameOrHex::name("green")),
                Icon::new("battery-1", ColorNameOrHex::name("yellow")),
                Icon::new("battery", ColorNameOrHex::name("red")),
            ],
            charging_icon: Icon::new("battery-charging", ColorNameOrHex::name("yellow")),
        }
    }
}

/// The settings of the toggle that opens the quick settings.
#[derive(Debug)]
pub struct Toggle {
    pub icon: Icon,
    pub open_icon: Icon,
}

impl Toggle {
    /// Every setting has the value that it has where the user sets nothing.
    pub open spec fn is_default(self) -> bool {
        &&& self.icon.is("chevron-down"@, "text"@)
        &&& self.open_icon.is("chevron-up"@, "text"@)
    }
}

impl Default for Toggle {
    fn default() -> (settings: Self)
        ensures
            settings.is_default(),
    {
        Self {
            icon: Icon::new("chevron-down", ColorNameOrHex::name("text")),
            open_icon: Icon::new("chevron-up", ColorNameOrHex::name("text")),
        }
    }
}

/// The settings of the system monitor.
#[derive(Debug)]
pub struct SysMon {
    pub segments: Vec<SysMonSegment>,
    pub probe_interval_ms: u64,
    pub precision: usize,
    pub cpu: Cpu,
    pub temp: Temp,
    pub ram: Ram,
    pub mouse_commands: MouseCommands,
}

impl SysMon {
    /// Every setting has the value that it has where the user sets nothing.
    pub open spec fn is_default(self) -> bool {
        &&& self.segments@.len() == 3
        &&& self.segments@[0] == SysMonSegment::Cpu
        &&& self.segments@[1] == SysMonSegment::Temp
        &&& self.segments@[2] == SysMonSegment::Ram
        &&& self.probe_interval_ms == 5000
        &&& self.precision == 1
        &&& self.cpu.is_default()
        &&& self.temp.is_default()
        &&& self.ram.is_default()
        &&& self.mouse_commands.is_default()
    }
}

impl Default for SysMon {
    fn default() -> (settings: Self)
        ensures
            settings.is_default(),
    {
        Self {
            segments: vec![SysMonSegment::Cpu, SysMonSegment::Temp, SysMonSegment::Ram],
            probe_interval_ms: 5000,
            precision: 1,
            cpu: Cpu::default(),
            temp: Temp::default(),
            ram: Ram::default(),
            mouse_commands: MouseCommands::default(),
        }
    }
}

/// The settings of the processor segment.
#[derive(Debug)]
pub struct Cpu {
    pub icon: Icon,
}

impl Cpu {
    /// Every setting has the value that it has where the user sets nothing.
    pub open spec fn is_default(self) -> bool {
        &&& self.icon.is("cpu"@, "lavender"@)
    }
}

impl Default for Cpu {
    fn default() -> (settings: Self)
        ensures
            settings.is_default(),
    {
        Self {
            icon: Icon::new("cpu", ColorNameOrHex::name("lavender")),
        }
    }
}

/// The settings of the temperature segment.
#[derive(Debug)]
pub struct Temp {
    pub icon: Icon,
}

impl Temp {
    /// Every setting has the value that it has where the user sets nothing.
    pub open spec fn is_default(self) -> bool {
        &&& self.icon.is("temperature"@, "red"@)
    }
}

impl Default for Temp {
    fn default() -> (settings: Self)
        ensures
            settings.is_default(),
    {
        Self {
            icon: Icon::new("temperature", ColorNameOrHex::name("red")),
        }
    }
}

/// The settings of the memory segment.
#[derive(Debug)]
pub struct Ram {
    pub icon: Icon,
}

impl Ram {
    /// Every setting has the value that it has where the user sets nothing.
    pub open spec fn is_default(self) -> bool {
        &&& self.icon.is("cpu-2"@, "pink"@)
    }
}

impl Default for Ram {
    fn default() -> (settings: Self)
        ensures
            settings.is_default(),
    {
        Self {
            icon: Icon::new("cpu-2", ColorNameOrHex::name("pink")),
        }
    }
}

/// The settings of the to-do module.
#[derive(Debug)]
pub struct Todo {
    pub sound_url: String,
    pub icon: Icon,
}

impl Todo {
    /// Every setting has the value that it has where the user sets nothing.
    pub open spec fn is_default(self) -> bool {
        &&& self.sound_url@
            == "https://todoist.b-cdn.net/assets/sounds/d8040624c9c7c88aa730f73faa60cf39.mp3"@
        &&& self.icon.is("square"@, "red"@)
    }
}

impl Default for Todo {
    fn default() -> (settings: Self)
        ensures
            settings.is_default(),
    {
        Self {
            sound_url:
                "https://todoist.b-cdn.net/assets/sounds/d8040624c9c7c88aa730f73faa60cf39.mp3"
                    .to_owned(),
            icon: Icon::new("square", ColorNameOrHex::name("red")),
        }
    }
}

/// The settings of the Twitch module.
#[derive(Debug)]
pub struct Twitch {
    pub icon: Icon,
    pub channels: Vec<String>,
    pub client_id: String,
    pub client_secret: String,
}

impl Twitch {
    /// Every setting has the value that it has where the user sets nothing.
    pub open spec fn is_default(self) -> bool {
        &&& self.icon.is_hex("brand-twitch"@, Color { r: 0xDD, g: 0xB6, b: 0xF2, a: 0xff })
        &&& self.channels@.len() == 0
        &&& self.client_id@ == Seq::<char>::empty()
        &&& self.client_secret@ == Seq::<char>::empty()
    }
}

impl Default for Twitch {
    fn default() -> (settings: Self)
        ensures
            settings.is_default(),
    {
        Self {
            icon: Icon::new(
                "brand-twitch",
                ColorNameOrHex::Hex(Color::from_rgb8(0xDD, 0xB6, 0xF2)),
            ),
            channels: Vec::new(),
            client_id: String::new(),
            client_secret: String::new(),
        }
    }
}

} // verus!
