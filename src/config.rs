//! The overlay's settings: accent color, text, chat channel, display switches,
//! padding and the commands run at start and at exit.

use vstd::prelude::*;

verus! {

/// A display color: one of eight named terminal colors, or an RGB value.
#[derive(Clone, Copy, Debug, PartialEq, Eq, Structural)]
pub enum Color {
    Black,
    Red,
    Green,
    Yellow,
    Blue,
    Magenta,
    Cyan,
    White,
    Rgb(u8, u8, u8),
}

/// A color as written in the settings: RGB components or the name of a preset.
#[derive(Clone, Debug)]
pub enum TomlColor {
    Rgb { r: u8, g: u8, b: u8 },
    Name(String),
}

/// The preset a (lowercase) name stands for, if any.
pub open spec fn named_color(name: Seq<char>) -> Option<Color> {
    if name == "black"@ {
        Some(Color::Black)
    } else if name == "red"@ {
        Some(Color::Red)
    } else if name == "green"@ {
        Some(Color::Green)
    } else if name == "yellow"@ {
        Some(Color::Yellow)
    } else if name == "blue"@ {
        Some(Color::Blue)
    } else if name == "magenta"@ {
        Some(Color::Magenta)
    } else if name == "cyan"@ {
        Some(Color::Cyan)
    } else if name == "white"@ {
        Some(Color::White)
    } else {
        None
    }
}

/// The preset a name stands for, white when it names none.
pub open spec fn preset_or_white(name: Seq<char>) -> Color {
    match named_color(name) {
        Some(c) => c,
        None => Color::White,
    }
}

/// The lowercase form of a text, as `str::to_lowercase` gives it.
pub uninterp spec fn lower_of(s: Seq<char>) -> Seq<char>;

/// Relies on `str::to_lowercase`: the lowercase mapping of the text, which
/// depends on its characters alone.
#[verifier::external_body]
fn lowercase(s: &str) -> (r: String)
    ensures
        r@ == lower_of(s@),
{
    s.to_lowercase()
}

/// Whether two texts hold the same characters.
fn same_text(a: &str, b: &str) -> (r: bool)
    ensures
        r == (a@ == b@),
{
    let a = String::from_str(a);
    let b = String::from_str(b);
    a == b
}

/// The preset that a lowercase name stands for, if any.
pub fn preset(name: &str) -> (r: Option<Color>)
    ensures
        r == named_color(name@),
{
    if same_text(name, "black") {
        Some(Color::Black)
    } else if same_text(name, "red") {
        Some(Color::Red)
    } else if same_text(name, "green") {
        Some(Color::Green)
    } else if same_text(name, "yellow") {
        Some(Color::Yellow)
    } else if same_text(name, "blue") {
        Some(Color::Blue)
    } else if same_text(name, "magenta") {
        Some(Color::Magenta)
    } else if same_text(name, "cyan") {
        Some(Color::Cyan)
    } else if same_text(name, "white") {
        Some(Color::White)
    } else {
        None
    }
}

/// What a settings color stands for: RGB as given, a name by its lowercase
/// form, white for an unknown name.
pub open spec fn color_value(c: TomlColor) -> Color {
    match c {
        TomlColor::Rgb { r, g, b } => Color::Rgb(r, g, b),
        TomlColor::Name(n) => preset_or_white(lower_of(n@)),
    }
}

impl TomlColor {
    /// The named color for a name that is already lowercase, if it names a preset.
    pub fn from_lowercase(lower: String) -> (r: Option<TomlColor>)
        ensures
            named_color(lower@) is Some <==> r is Some,
            r matches Some(c) ==> c matches TomlColor::Name(n) && n@ == lower@,
    {
        match preset(lower.as_str()) {
            Some(_) => Some(TomlColor::Name(lower)),
            None => None,
        }
    }

    /// The named color for `name`, compared without regard to case; the name is
    /// kept in lowercase. `None` when it names no preset.
    pub fn from_name(name: &str) -> (r: Option<TomlColor>)
        ensures
            named_color(lower_of(name@)) is Some <==> r is Some,
            r matches Some(c) ==> c matches TomlColor::Name(n) && n@ == lower_of(name@),
    {
        TomlColor::from_lowercase(lowercase(name))
    }
}

/// The accent color when none is configured.
pub const DEFAULT_COLOR: &'static str = "white";
/// The text shown when none is configured.
pub const DEFAULT_TEXT: &'static str = "Be right back";
pub const DEFAULT_CHAT: bool = false;
pub const DEFAULT_SONG_DISPLAY: bool = false;
pub const DEFAULT_HIDE_TIMER: bool = true;
pub const DEFAULT_PROGRESS_BAR: bool = true;
pub const DEFAULT_PADDING: u16 = 1;

fn default_color() -> (r: TomlColor)
    ensures
        r matches TomlColor::Name(n) && n@ == DEFAULT_COLOR@,
{
    TomlColor::Name(String::from_str(DEFAULT_COLOR))
}

impl Default for TomlColor {
    fn default() -> (r: TomlColor)
        ensures
            r matches TomlColor::Name(n) && n@ == DEFAULT_COLOR@,
    {
        default_color()
    }
}

fn default_text() -> (r: String)
    ensures
        r@ == DEFAULT_TEXT@,
{
    String::from_str(DEFAULT_TEXT)
}

fn default_twitch_channel() -> (r: Option<String>)
    ensures
        r is None,
{
    None
}

fn default_chat() -> (r: bool)
    ensures
        r == DEFAULT_CHAT,
{
    DEFAULT_CHAT
}

fn default_song_display() -> (r: bool)
    ensures
        r == DEFAULT_SONG_DISPLAY,
{
    DEFAULT_SONG_DISPLAY
}

fn default_hide_timer() -> (r: bool)
    ensures
        r == DEFAULT_HIDE_TIMER,
{
    DEFAULT_HIDE_TIMER
}

fn default_progress_bar() -> (r: bool)
    ensures
        r == DEFAULT_PROGRESS_BAR,
{
    DEFAULT_PROGRESS_BAR
}

fn default_padding() -> (r: u16)
    ensures
        r == DEFAULT_PADDING,
{
    DEFAULT_PADDING
}

fn default_start_commands() -> (r: Vec<String>)
    ensures
        r@.len() == 0,
{
    Vec::new()
}

fn default_exit_commands() -> (r: Vec<String>)
    ensures
        r@.len() == 0,
{
    Vec::new()
}

/// The overlay's settings.
pub struct Config {
    color: TomlColor,
    text: String,
    twitch_channel: Option<String>,
    chat: bool,
    song_display: bool,
    hide_timer: bool,
    progress_bar: bool,
    padding: u16,
    start_commands: Vec<String>,
    exit_commands: Vec<String>,
}

/// A copy of a list of texts.
fn copy_texts(v: &Vec<String>) -> (r: Vec<String>)
    ensures
        r.deep_view() == v.deep_view(),
{
    let mut out: Vec<String> = Vec::new();
    let mut i: usize = 0;
    while i < v.len()
        invariant
            i <= v@.len(),
            out@ == v@.subrange(0, i as int),
        decreases v@.len() - i,
    {
        out.push(v[i].clone());
        i = i + 1;
        assert(out@ =~= v@.subrange(0, i as int));
    }
    assert(out@ =~= v@);
    out
}

impl Default for Config {
    fn default() -> (r: Config)
        ensures
            r.color() matches TomlColor::Name(n) && n@ == DEFAULT_COLOR@,
            r.text() == DEFAULT_TEXT@,
            r.twitch_channel() is None,
            r.chat() == DEFAULT_CHAT,
            r.song_display() == DEFAULT_SONG_DISPLAY,
            r.hide_timer() == DEFAULT_HIDE_TIMER,
            r.progress_bar() == DEFAULT_PROGRESS_BAR,
            r.padding() == DEFAULT_PADDING,
            r.start_commands().len() == 0,
            r.exit_commands().len() == 0,
    {
        Config {
            color: default_color(),
            text: default_text(),
            twitch_channel: default_twitch_channel(),
            chat: default_chat(),
            song_display: default_song_display(),
            hide_timer: default_hide_timer(),
            progress_bar: default_progress_bar(),
            padding: default_padding(),
            start_commands: default_start_commands(),
            exit_commands: default_exit_commands(),
        }
    }
}

impl Config {
    pub closed spec fn color(&self) -> TomlColor {
        self.color
    }

    pub closed spec fn text(&self) -> Seq<char> {
        self.text@
    }

    pub closed spec fn twitch_channel(&self) -> Option<Seq<char>> {
        match self.twitch_channel {
            Some(c) => Some(c@),
            None => None,
        }
    }

    pub closed spec fn chat(&self) -> bool {
        self.chat
    }

    pub closed spec fn song_display(&self) -> bool {
        self.song_display
    }

    pub closed spec fn hide_timer(&self) -> bool {
        self.hide_timer
    }

    pub closed spec fn progress_bar(&self) -> bool {
        self.progress_bar
    }

    pub closed spec fn padding(&self) -> u16 {
        self.padding
    }

    pub closed spec fn start_commands(&self) -> Seq<Seq<char>> {
        self.start_commands.deep_view()
    }

    pub closed spec fn exit_commands(&self) -> Seq<Seq<char>> {
        self.exit_commands.deep_view()
    }

    /// Builds settings from every value; the configuration file's loader uses it.
    pub fn from_parts(
        color: TomlColor,
        text: String,
        twitch_channel: Option<String>,
        chat: bool,
        song_display: bool,
        hide_timer: bool,
        progress_bar: bool,
        padding: u16,
        start_commands: Vec<String>,
        exit_commands: Vec<String>,
    ) -> (r: Config)
        ensures
            r.color() == color,
            r.text() == text@,
            r.twitch_channel() == (match twitch_channel {
                Some(c) => Some(c@),
                None => None::<Seq<char>>,
            }),
            r.chat() == chat,
            r.song_display() == song_display,
            r.hide_timer() == hide_timer,
            r.progress_bar() == progress_bar,
            r.padding() == padding,
            r.start_commands() == start_commands.deep_view(),
            r.exit_commands() == exit_commands.deep_view(),
    {
        Config {
            color,
            text,
            twitch_channel,
            chat,
            song_display,
            hide_timer,
            progress_bar,
            padding,
            start_commands,
            exit_commands,
        }
    }

    /// The preset a lowercase name stands for, white when it names none.
    pub fn map_color_name(name: &str) -> (r: Color)
        ensures
            r == preset_or_white(name@),
    {
        match preset(name) {
            Some(c) => c,
            None => Color::White,
        }
    }

    /// The accent color: RGB as configured, or the preset of the configured name
    /// (without regard to case), white for an unknown name.
    pub fn get_color(&self) -> (r: Color)
        ensures
            r == color_value(self.color()),
    {
        match &self.color {
            TomlColor::Rgb { r, g, b } => Color::Rgb(*r, *g, *b),
            TomlColor::Name(name) => Config::map_color_name(lowercase(name.as_str()).as_str()),
        }
    }

    /// The accent color as configured.
    pub fn get_toml_color(&self) -> (r: TomlColor)
        ensures
            r == self.color(),
    {
        match &self.color {
            TomlColor::Rgb { r, g, b } => TomlColor::Rgb { r: *r, g: *g, b: *b },
            TomlColor::Name(name) => TomlColor::Name(name.clone()),
        }
    }

    pub fn set_color(&mut self, color: TomlColor)
        ensures
            final(self).color() == color,
            final(self).text() == old(self).text(),
            final(self).twitch_channel() == old(self).twitch_channel(),
            final(self).chat() == old(self).chat(),
            final(self).song_display() == old(self).song_display(),
            final(self).hide_timer() == old(self).hide_timer(),
            final(self).progress_bar() == old(self).progress_bar(),
            final(self).padding() == old(self).padding(),
            final(self).start_commands() == old(self).start_commands(),
            final(self).exit_commands() == old(self).exit_commands(),
    {
        self.color = color;
    }

    pub fn set_text(&mut self, text: String)
        ensures
            final(self).text() == text@,
            final(self).color() == old(self).color(),
            final(self).twitch_channel() == old(self).twitch_channel(),
            final(self).chat() == old(self).chat(),
            final(self).song_display() == old(self).song_display(),
            final(self).hide_timer() == old(self).hide_timer(),
            final(self).progress_bar() == old(self).progress_bar(),
            final(self).padding() == old(self).padding(),
            final(self).start_commands() == old(self).start_commands(),
            final(self).exit_commands() == old(self).exit_commands(),
    {
        self.text = text;
    }

    pub fn get_text(&self) -> (r: String)
        ensures
            r@ == self.text(),
    {
        self.text.clone()
    }

    pub fn set_twitch_channel(&mut self, twitch_channel: String)
        ensures
            final(self).twitch_channel() == Some(twitch_channel@),
            final(self).color() == old(self).color(),
            final(self).text() == old(self).text(),
            final(self).chat() == old(self).chat(),
            final(self).song_display() == old(self).song_display(),
            final(self).hide_timer() == old(self).hide_timer(),
            final(self).progress_bar() == old(self).progress_bar(),
            final(self).padding() == old(self).padding(),
            final(self).start_commands() == old(self).start_commands(),
            final(self).exit_commands() == old(self).exit_commands(),
    {
        self.twitch_channel = Some(twitch_channel);
    }

    pub fn get_twitch_channel(&self) -> (r: Option<String>)
        ensures
            match r {
                Some(c) => self.twitch_channel() == Some(c@),
                None => self.twitch_channel() is None,
            },
    {
        match &self.twitch_channel {
            Some(c) => Some(c.clone()),
            None => None,
        }
    }

    pub fn set_chat(&mut self, chat: bool)
        ensures
            final(self).chat() == chat,
            final(self).color() == old(self).color(),
            final(self).text() == old(self).text(),
            final(self).twitch_channel() == old(self).twitch_channel(),
            final(self).song_display() == old(self).song_display(),
            final(self).hide_timer() == old(self).hide_timer(),
            final(self).progress_bar() == old(self).progress_bar(),
            final(self).padding() == old(self).padding(),
            final(self).start_commands() == old(self).start_commands(),
            final(self).exit_commands() == old(self).exit_commands(),
    {
        self.chat = chat;
    }

    pub fn is_chat(&self) -> (r: bool)
        ensures
            r == self.chat(),
    {
        self.chat
    }

    pub fn set_song_display(&mut self, song_display: bool)
        ensures
            final(self).song_display() == song_display,
            final(self).color() == old(self).color(),
            final(self).text() == old(self).text(),
            final(self).twitch_channel() == old(self).twitch_channel(),
            final(self).chat() == old(self).chat(),
            final(self).hide_timer() == old(self).hide_timer(),
            final(self).progress_bar() == old(self).progress_bar(),
            final(self).padding() == old(self).padding(),
            final(self).start_commands() == old(self).start_commands(),
            final(self).exit_commands() == old(self).exit_commands(),
    {
        self.song_display = song_display;
    }

    pub fn is_song_display(&self) -> (r: bool)
        ensures
            r == self.song_display(),
    {
        self.song_display
    }

    pub fn set_hide_timer(&mut self, hide_timer: bool)
        ensures
            final(self).hide_timer() == hide_timer,
            final(self).color() == old(self).color(),
            final(self).text() == old(self).text(),
            final(self).twitch_channel() == old(self).twitch_channel(),
            final(self).chat() == old(self).chat(),
            final(self).song_display() == old(self).song_display(),
            final(self).progress_bar() == old(self).progress_bar(),
            final(self).padding() == old(self).padding(),
            final(self).start_commands() == old(self).start_commands(),
            final(self).exit_commands() == old(self).exit_commands(),
    {
        self.hide_timer = hide_timer;
    }

    pub fn is_hide_timer(&self) -> (r: bool)
        ensures
            r == self.hide_timer(),
    {
        self.hide_timer
    }

    pub fn set_progress_bar(&mut self, progress_bar: bool)
        ensures
            final(self).progress_bar() == progress_bar,
            final(self).color() == old(self).color(),
            final(self).text() == old(self).text(),
            final(self).twitch_channel() == old(self).twitch_channel(),
            final(self).chat() == old(self).chat(),
            final(self).song_display() == old(self).song_display(),
            final(self).hide_timer() == old(self).hide_timer(),
            final(self).padding() == old(self).padding(),
            final(self).start_commands() == old(self).start_commands(),
            final(self).exit_commands() == old(self).exit_commands(),
    {
        self.progress_bar = progress_bar;
    }

    pub fn is_progress_bar(&self) -> (r: bool)
        ensures
            r == self.progress_bar(),
    {
        self.progress_bar
    }

    pub fn set_padding(&mut self, padding: u16)
        ensures
            final(self).padding() == padding,
            final(self).color() == old(self).color(),
            final(self).text() == old(self).text(),
            final(self).twitch_channel() == old(self).twitch_channel(),
            final(self).chat() == old(self).chat(),
            final(self).song_display() == old(self).song_display(),
            final(self).hide_timer() == old(self).hide_timer(),
            final(self).progress_bar() == old(self).progress_bar(),
            final(self).start_commands() == old(self).start_commands(),
            final(self).exit_commands() == old(self).exit_commands(),
    {
        self.padding = padding;
    }

    pub fn get_padding(&self) -> (r: u16)
        ensures
            r == self.padding(),
    {
        self.padding
    }

    pub fn get_start_commands(&self) -> (r: Vec<String>)
        ensures
            r.deep_view() == self.start_commands(),
    {
        copy_texts(&self.start_commands)
    }

    pub fn get_exit_commands(&self) -> (r: Vec<String>)
        ensures
            r.deep_view() == self.exit_commands(),
    {
        copy_texts(&self.exit_commands)
    }
}

} // verus!
