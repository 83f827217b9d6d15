//! Reading the command line's values: time amounts such as `1h 30m 10s`, accent
//! colors given by name or as `R,G,B`, and the settings they override.

use vstd::prelude::*;

use crate::config::{lower_of, named_color, Config, TomlColor};
use crate::state::App;
use crate::text::{decimal, decimal_parse, push_decimal, split_on, split_seq};

verus! {

/// The unit of a time amount.
#[derive(Clone, Copy, Debug, PartialEq, Eq, Structural)]
pub enum TimeUnit {
    Seconds,
    Minutes,
    Hours,
}

/// A time amount in one unit, such as `90m`.
#[derive(Clone, Copy, Debug, PartialEq, Eq, Structural)]
pub struct TimeValue {
    pub value: u64,
    pub unit: TimeUnit,
}

pub const SUFFIX_ERROR: &'static str = "Time arguments must end with 'h', 'm', or 's' suffix";
pub const COLOR_NAME_ERROR: &'static str = "Invalid color name";
pub const RGB_FORMAT_ERROR: &'static str = "Invalid RGB color format, must be 'R,G,B'";

/// The unit a suffix letter stands for.
pub open spec fn unit_of(c: char) -> Option<TimeUnit> {
    if c == 'h' {
        Some(TimeUnit::Hours)
    } else if c == 'm' {
        Some(TimeUnit::Minutes)
    } else if c == 's' {
        Some(TimeUnit::Seconds)
    } else {
        None
    }
}

pub open spec fn missing_amount_message(unit: char) -> Seq<char> {
    "Missing time amount for '"@ + seq![unit] + "' time unit"@
}

pub open spec fn invalid_amount_message(amount: Seq<char>, unit: char) -> Seq<char> {
    "Invalid time amount '"@ + amount + "' for '"@ + seq![unit] + "' time unit"@
}

/// What a time argument reads as: a decimal amount followed by `h`, `m` or `s`.
pub open spec fn time_arg_result(a: Seq<char>) -> Result<TimeValue, Seq<char>> {
    if a.len() == 0 || unit_of(a.last()) is None {
        Err(SUFFIX_ERROR@)
    } else if a.len() == 1 {
        Err(missing_amount_message(a.last()))
    } else {
        match decimal_parse(a.drop_last(), u64::MAX as nat) {
            Some(v) => Ok(TimeValue { value: v as u64, unit: unit_of(a.last())->0 }),
            None => Err(invalid_amount_message(a.drop_last(), a.last())),
        }
    }
}

/// Reads a time argument such as `15m`.
pub fn time_arg_parser(arg: &str) -> (r: Result<TimeValue, String>)
    ensures
        match r {
            Ok(t) => time_arg_result(arg@) == Ok::<TimeValue, Seq<char>>(t),
            Err(e) => time_arg_result(arg@) == Err::<TimeValue, Seq<char>>(e@),
        },
{
    let n = arg.unicode_len();
    if n == 0 {
        return Err(String::from_str(SUFFIX_ERROR));
    }
    let last = arg.get_char(n - 1);
    let unit = if last == 'h' {
        TimeUnit::Hours
    } else if last == 'm' {
        TimeUnit::Minutes
    } else if last == 's' {
        TimeUnit::Seconds
    } else {
        return Err(String::from_str(SUFFIX_ERROR));
    };
    let unit_str = arg.substring_char(n - 1, n);
    assert(unit_str@ =~= seq![last]);
    if n == 1 {
        let mut msg = String::from_str("Missing time amount for '");
        msg.append(unit_str);
        msg.append("' time unit");
        return Err(msg);
    }
    let value_str = arg.substring_char(0, n - 1);
    assert(value_str@ =~= arg@.drop_last());
    match crate::text::parse_decimal(value_str, u64::MAX) {
        Some(value) => Ok(TimeValue { value, unit }),
        None => {
            let mut msg = String::from_str("Invalid time amount '");
            msg.append(value_str);
            msg.append("' for '");
            msg.append(unit_str);
            msg.append("' time unit");
            Err(msg)
        },
    }
}

/// Seconds in one of `unit`.
pub open spec fn unit_seconds(unit: TimeUnit) -> nat {
    match unit {
        TimeUnit::Hours => 3600,
        TimeUnit::Minutes => 60,
        TimeUnit::Seconds => 1,
    }
}

/// The seconds that a list of time amounts adds up to.
pub open spec fn total_seconds(ts: Seq<TimeValue>) -> nat
    decreases ts.len(),
{
    if ts.len() == 0 {
        0
    } else {
        total_seconds(ts.drop_last()) + (ts.last().value as nat) * unit_seconds(ts.last().unit)
    }
}

proof fn lemma_total_grows(ts: Seq<TimeValue>, j: int)
    requires
        0 <= j <= ts.len(),
    ensures
        total_seconds(ts.subrange(0, j)) <= total_seconds(ts),
    decreases ts.len() - j,
{
    if j < ts.len() {
        lemma_total_grows(ts, j + 1);
        assert(ts.subrange(0, j + 1).drop_last() =~= ts.subrange(0, j));
    } else {
        assert(ts.subrange(0, j) =~= ts);
    }
}

/// The total of the time amounts in seconds, or `None` when it exceeds
/// `u32::MAX` seconds.
pub fn total_duration_secs(ts: &Vec<TimeValue>) -> (r: Option<u32>)
    ensures
        total_seconds(ts@) <= u32::MAX ==> r == Some(total_seconds(ts@) as u32),
        total_seconds(ts@) > u32::MAX ==> r is None,
{
    let mut acc: u64 = 0;
    let mut i: usize = 0;
    assert(ts@.subrange(0, 0) =~= Seq::<TimeValue>::empty());
    while i < ts.len()
        invariant
            i <= ts@.len(),
            acc as nat == total_seconds(ts@.subrange(0, i as int)),
            acc <= u32::MAX,
        decreases ts@.len() - i,
    {
        let t = ts[i];
        let factor: u64 = match t.unit {
            TimeUnit::Hours => 3600,
            TimeUnit::Minutes => 60,
            TimeUnit::Seconds => 1,
        };
        assert(ts@.subrange(0, i + 1).drop_last() =~= ts@.subrange(0, i as int));
        assert(ts@.subrange(0, i + 1).last() == t);
        let limit: u64 = u32::MAX as u64 - acc;
        if t.value > limit / factor {
            proof {
                assert(t.value * factor > limit) by (nonlinear_arith)
                    requires
                        t.value > limit / factor,
                        factor > 0,
                ;
                lemma_total_grows(ts@, i + 1);
            }
            return None;
        }
        proof {
            assert(t.value * factor <= limit) by (nonlinear_arith)
                requires
                    t.value <= limit / factor,
                    factor > 0,
            ;
        }
        acc = acc + t.value * factor;
        i = i + 1;
    }
    assert(ts@.subrange(0, i as int) =~= ts@);
    Some(acc as u32)
}

/// A text without its leading and trailing whitespace, as `str::trim` gives it.
pub uninterp spec fn trim_of(s: Seq<char>) -> Seq<char>;

/// Relies on `str::trim`: the text without leading and trailing Unicode
/// whitespace, which depends on its characters alone.
#[verifier::external_body]
fn trimmed(s: &str) -> (r: String)
    ensures
        r@ == trim_of(s@),
{
    s.trim().to_string()
}

pub open spec fn invalid_component_message(piece: Seq<char>) -> Seq<char> {
    "Invalid value '"@ + piece + "', must be a number between 0 and 255"@
}

pub open spec fn component_count_message(count: nat) -> Seq<char> {
    "Too many RGB values, must be 3, "@ + decimal(count) + " were provided"@
}

/// The components that comma-separated pieces read as, each trimmed and read
/// as a number up to 255; the first piece that does not read gives the error.
pub open spec fn rgb_components(pieces: Seq<Seq<char>>) -> Result<Seq<u8>, Seq<char>>
    decreases pieces.len(),
{
    if pieces.len() == 0 {
        Ok(Seq::<u8>::empty())
    } else {
        match rgb_components(pieces.drop_last()) {
            Err(e) => Err(e),
            Ok(vs) => match decimal_parse(trim_of(pieces.last()), 255) {
                Some(v) => Ok(vs.push(v as u8)),
                None => Err(invalid_component_message(pieces.last())),
            },
        }
    }
}

/// What an argument that names no preset reads as: exactly three comma
/// separated components, or the error that says why not.
pub open spec fn rgb_arg_result(a: Seq<char>) -> Result<(u8, u8, u8), Seq<char>> {
    if !a.contains(',') {
        Err(COLOR_NAME_ERROR@)
    } else if a[0] == ',' || a.last() == ',' {
        Err(RGB_FORMAT_ERROR@)
    } else {
        match rgb_components(split_seq(a, ',')) {
            Err(e) => Err(e),
            Ok(vs) => if vs.len() == 3 {
                Ok((vs[0], vs[1], vs[2]))
            } else {
                Err(component_count_message(vs.len()))
            },
        }
    }
}

proof fn lemma_components_len(pieces: Seq<Seq<char>>)
    ensures
        rgb_components(pieces) matches Ok(vs) ==> vs.len() == pieces.len(),
    decreases pieces.len(),
{
    if pieces.len() > 0 {
        lemma_components_len(pieces.drop_last());
    }
}

proof fn lemma_components_error_stays(pieces: Seq<Seq<char>>, j: int)
    requires
        0 <= j <= pieces.len(),
        rgb_components(pieces.subrange(0, j)) is Err,
    ensures
        rgb_components(pieces) == rgb_components(pieces.subrange(0, j)),
    decreases pieces.len() - j,
{
    if j < pieces.len() {
        assert(pieces.subrange(0, j + 1).drop_last() =~= pieces.subrange(0, j));
        lemma_components_error_stays(pieces, j + 1);
    } else {
        assert(pieces.subrange(0, j) =~= pieces);
    }
}

/// Whether `c` occurs in `s`.
fn has_char(s: &str, c: char) -> (r: bool)
    ensures
        r == s@.contains(c),
{
    let n = s.unicode_len();
    let mut i: usize = 0;
    while i < n
        invariant
            n == s@.len(),
            i <= n,
            forall|k: int| 0 <= k < i ==> s@[k] != c,
        decreases n - i,
    {
        if s.get_char(i) == c {
            return true;
        }
        i = i + 1;
    }
    false
}

/// Reads the comma-separated components of an RGB color.
fn parse_components(pieces: &Vec<String>) -> (r: Result<Vec<u8>, String>)
    ensures
        match r {
            Ok(vs) => rgb_components(pieces.deep_view()) == Ok::<Seq<u8>, Seq<char>>(vs@),
            Err(e) => rgb_components(pieces.deep_view()) == Err::<Seq<u8>, Seq<char>>(e@),
        },
{
    let ghost ps = pieces.deep_view();
    let mut values: Vec<u8> = Vec::new();
    let mut i: usize = 0;
    assert(ps.subrange(0, 0) =~= Seq::<Seq<char>>::empty());
    while i < pieces.len()
        invariant
            ps == pieces.deep_view(),
            i <= ps.len(),
            rgb_components(ps.subrange(0, i as int)) == Ok::<Seq<u8>, Seq<char>>(values@),
        decreases ps.len() - i,
    {
        let piece = &pieces[i];
        assert(piece@ == ps[i as int]);
        assert(ps.subrange(0, i + 1).drop_last() =~= ps.subrange(0, i as int));
        assert(ps.subrange(0, i + 1).last() == ps[i as int]);
        let t = trimmed(piece.as_str());
        match crate::text::parse_decimal(t.as_str(), 255) {
            Some(v) => {
                values.push(v as u8);
            },
            None => {
                let mut msg = String::from_str("Invalid value '");
                msg.append(piece.as_str());
                msg.append("', must be a number between 0 and 255");
                proof {
                    lemma_components_error_stays(ps, i + 1);
                }
                return Err(msg);
            },
        }
        i = i + 1;
    }
    assert(ps.subrange(0, i as int) =~= ps);
    Ok(values)
}

/// Reads an accent color argument: a preset name in any case, or `R,G,B`.
pub fn color_arg_parser(arg: &str) -> (r: Result<TomlColor, String>)
    ensures
        named_color(lower_of(arg@)) is Some ==> (r matches Ok(TomlColor::Name(n)) && n@ == lower_of(
            arg@,
        )),
        named_color(lower_of(arg@)) is None ==> match rgb_arg_result(arg@) {
            Ok((red, green, blue)) => r matches Ok(TomlColor::Rgb { r, g, b }) && r == red && g
                == green && b == blue,
            Err(m) => r matches Err(e) && e@ == m,
        },
{
    if let Some(named) = TomlColor::from_name(arg) {
        return Ok(named);
    }
    if !has_char(arg, ',') {
        return Err(String::from_str(COLOR_NAME_ERROR));
    }
    let n = arg.unicode_len();
    if arg.get_char(0) == ',' || arg.get_char(n - 1) == ',' {
        return Err(String::from_str(RGB_FORMAT_ERROR));
    }
    let pieces = split_on(arg, ',');
    let values = match parse_components(&pieces) {
        Ok(vs) => vs,
        Err(e) => return Err(e),
    };
    proof {
        lemma_components_len(pieces.deep_view());
    }
    if values.len() != 3 {
        let mut msg = String::from_str("Too many RGB values, must be 3, ");
        push_decimal(&mut msg, values.len() as u64);
        msg.append(" were provided");
        return Err(msg);
    }
    Ok(TomlColor::Rgb { r: values[0], g: values[1], b: values[2] })
}

/// The values read from the command line; `None` where an option was not given.
pub struct CliArgs {
    pub dir: bool,
    pub text: Option<String>,
    pub chat: Option<bool>,
    pub song_display: Option<bool>,
    pub twitch: Option<String>,
    pub color: Option<TomlColor>,
    pub hide_timer: Option<bool>,
    pub progress_bar: Option<bool>,
    pub padding: Option<u16>,
    pub time: Option<Vec<TimeValue>>,
}

/// What the program does once its arguments are read.
pub enum Launch {
    /// Print where the configuration file belongs.
    ShowConfigDir,
    /// Run the overlay.
    Run(App),
}

pub const DURATION_TOO_LONG: &'static str = "The time arguments add up to more than 4294967295 seconds";

/// Whether `r` holds the settings `c` with the command line's overrides `a`:
/// each option given replaces its setting, every other setting stays.
pub open spec fn overridden(c: Config, a: CliArgs, r: Config) -> bool {
    &&& r.text() == match a.text {
        Some(t) => t@,
        None => c.text(),
    }
    &&& r.chat() == match a.chat {
        Some(v) => v,
        None => c.chat(),
    }
    &&& r.song_display() == match a.song_display {
        Some(v) => v,
        None => c.song_display(),
    }
    &&& r.twitch_channel() == match a.twitch {
        Some(t) => Some(t@),
        None => c.twitch_channel(),
    }
    &&& r.color() == match a.color {
        Some(v) => v,
        None => c.color(),
    }
    &&& r.hide_timer() == match a.hide_timer {
        Some(v) => v,
        None => c.hide_timer(),
    }
    &&& r.progress_bar() == match a.progress_bar {
        Some(v) => v,
        None => c.progress_bar(),
    }
    &&& r.padding() == match a.padding {
        Some(v) => v,
        None => c.padding(),
    }
    &&& r.start_commands() == c.start_commands()
    &&& r.exit_commands() == c.exit_commands()
}

/// Decides what to do with the command line's values: show the configuration
/// directory when asked, or build the overlay with the overridden settings and,
/// when time amounts were given, a countdown of their total started at `now_ms`.
/// Amounts that add up to more than `u32::MAX` seconds are refused.
pub fn parse(config: Config, args: CliArgs, now_ms: u64) -> (r: Result<Launch, String>)
    ensures
        args.dir ==> r matches Ok(Launch::ShowConfigDir),
        !args.dir && (args.time matches Some(ts) && total_seconds(ts@) > u32::MAX) ==> (r matches Err(
            e,
        ) && e@ == DURATION_TOO_LONG@),
        !args.dir && !(args.time matches Some(ts) && total_seconds(ts@) > u32::MAX) ==> (r matches Ok(
            Launch::Run(app),
        ) && overridden(config, args, app.config()) && !app.exit_requested() && app.chat() is None
            && match args.time {
            Some(ts) => app.countdown().run == Some((now_ms, (total_seconds(ts@) * 1000) as u64))
                && app.countdown().remaining_ms == Some((total_seconds(ts@) * 1000) as u64),
            None => app.countdown().run is None && app.countdown().remaining_ms is None,
        }),
{
    if args.dir {
        return Ok(Launch::ShowConfigDir);
    }
    let ghost a = args;
    let mut config = config;
    let CliArgs {
        dir: _,
        text,
        chat,
        song_display,
        twitch,
        color,
        hide_timer,
        progress_bar,
        padding,
        time,
    } = args;
    if let Some(t) = text {
        config.set_text(t);
    }
    if let Some(v) = chat {
        config.set_chat(v);
    }
    if let Some(v) = song_display {
        config.set_song_display(v);
    }
    if let Some(t) = twitch {
        config.set_twitch_channel(t);
    }
    if let Some(v) = color {
        config.set_color(v);
    }
    if let Some(v) = hide_timer {
        config.set_hide_timer(v);
    }
    if let Some(v) = progress_bar {
        config.set_progress_bar(v);
    }
    if let Some(v) = padding {
        config.set_padding(v);
    }
    let mut app = App::default();
    if let Some(ts) = time {
        match total_duration_secs(&ts) {
            Some(secs) => app.set_duration(secs as u64 * 1000, now_ms),
            None => return Err(String::from_str(DURATION_TOO_LONG)),
        }
    }
    app.set_config(config);
    Ok(Launch::Run(app))
}

} // verus!
