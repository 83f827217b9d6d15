//! The coordination loop's state and decisions: when to tick, what a key does,
//! and the snapshot of everything a frame shows.

use vstd::prelude::*;

use crate::chat::{keep_last, max_usize, TwitchChat, TwitchMessage, BUFFER_CAP, QUEUE_CAPACITY};
use crate::config::{color_value, Color, Config};
use crate::countdown::{
    clock_text, elapsed_ms, format_duration, percentage_at, remaining_at, Countdown,
};
use crate::text::{split_on, split_seq};

verus! {

/// How often, in milliseconds, the countdown is recomputed and the chat drained.
pub const REDRAW_MS: u64 = 100;

/// How long, in milliseconds, one poll for terminal input may wait.
pub const INPUT_POLL_MS: u64 = 50;

/// The key that ends the program.
pub const QUIT_KEY: char = 'q';

/// The overlay's state, owned by the single coordination thread.
pub struct App {
    config: Config,
    chat: Option<TwitchChat>,
    countdown: Countdown,
    last_tick_ms: u64,
    exit: bool,
}

/// Everything a frame shows, computed from the state at one instant.
pub struct Snapshot {
    pub padding: u16,
    pub accent: Color,
    /// The remaining time as `MM:SS`, when it is shown.
    pub time_text: Option<String>,
    /// The elapsed percentage, when the time and the progress bar are shown.
    pub progress: Option<u16>,
    /// The configured text, one entry per line.
    pub text_lines: Vec<String>,
    pub show_chat: bool,
}

/// The words a command line is split into, as `shlex::Shlex` splits it.
pub uninterp spec fn shell_words_of(command: Seq<char>) -> Seq<Seq<char>>;

/// Relies on `shlex::Shlex`: the words of a command line under POSIX shell
/// quoting; at a quoting error it drops the last word and stops. The words
/// depend on the text alone.
#[verifier::external_body]
fn shell_words(command: &str) -> (r: Vec<String>)
    ensures
        r.deep_view() == shell_words_of(command@),
{
    shlex::Shlex::new(command).collect()
}

/// The program and its arguments among the words of a command: the first word
/// and the others, or `None` when there are no words.
pub fn program_and_args(words: Vec<String>) -> (r: Option<(String, Vec<String>)>)
    ensures
        words@.len() == 0 <==> r is None,
        r matches Some((program, args)) ==> program@ == words.deep_view()[0] && args.deep_view()
            == words.deep_view().drop_first(),
{
    let mut words = words;
    if words.len() == 0 {
        return None;
    }
    let ghost all = words.deep_view();
    let program = words.remove(0);
    assert(words.deep_view() =~= all.drop_first());
    Some((program, words))
}

/// The program and arguments that a configured command line runs, or `None`
/// when it holds no words.
pub fn command_argv(command: &str) -> (r: Option<(String, Vec<String>)>)
    ensures
        shell_words_of(command@).len() == 0 <==> r is None,
        r matches Some((program, args)) ==> program@ == shell_words_of(command@)[0]
            && args.deep_view() == shell_words_of(command@).drop_first(),
{
    program_and_args(shell_words(command))
}

impl Default for App {
    fn default() -> (r: App)
        ensures
            r.countdown().run is None,
            r.countdown().remaining_ms is None,
            r.chat() is None,
            !r.exit_requested(),
            r.last_tick_ms() == 0,
    {
        App {
            config: Config::default(),
            chat: None,
            countdown: Countdown::new(),
            last_tick_ms: 0,
            exit: false,
        }
    }
}

impl App {
    pub closed spec fn config(&self) -> Config {
        self.config
    }

    pub closed spec fn chat(&self) -> Option<TwitchChat> {
        self.chat
    }

    pub closed spec fn countdown(&self) -> Countdown {
        self.countdown
    }

    pub closed spec fn last_tick_ms(&self) -> u64 {
        self.last_tick_ms
    }

    pub closed spec fn exit_requested(&self) -> bool {
        self.exit
    }

    pub fn set_config(&mut self, config: Config)
        ensures
            final(self).config() == config,
            final(self).chat() == old(self).chat(),
            final(self).countdown() == old(self).countdown(),
            final(self).last_tick_ms() == old(self).last_tick_ms(),
            final(self).exit_requested() == old(self).exit_requested(),
    {
        self.config = config;
    }

    /// Starts (or restarts) the countdown at `now_ms` for `duration_ms`.
    pub fn set_duration(&mut self, duration_ms: u64, now_ms: u64)
        ensures
            final(self).countdown().run == Some((now_ms, duration_ms)),
            final(self).countdown().remaining_ms == Some(duration_ms),
            final(self).config() == old(self).config(),
            final(self).chat() == old(self).chat(),
            final(self).last_tick_ms() == old(self).last_tick_ms(),
            final(self).exit_requested() == old(self).exit_requested(),
    {
        self.countdown.set_duration(duration_ms, now_ms);
    }

    /// The remaining time last computed, in milliseconds; `None` before a
    /// duration is set and once an expired timer is hidden.
    pub fn remaining_ms(&self) -> (r: Option<u64>)
        ensures
            r == self.countdown().remaining_ms,
    {
        self.countdown.remaining_ms
    }

    pub fn get_config(&self) -> (r: &Config)
        ensures
            *r == self.config(),
    {
        &self.config
    }

    pub fn should_exit(&self) -> (r: bool)
        ensures
            r == self.exit_requested(),
    {
        self.exit
    }

    /// Recomputes the remaining time at `now_ms`, hiding an expired timer when
    /// the settings say so.
    pub fn update_time(&mut self, now_ms: u64)
        ensures
            final(self).countdown().run == old(self).countdown().run,
            final(self).countdown().remaining_ms == match old(self).countdown().run {
                None => old(self).countdown().remaining_ms,
                Some((start, duration)) => remaining_at(
                    start,
                    duration,
                    now_ms,
                    old(self).config().hide_timer(),
                ),
            },
            final(self).config() == old(self).config(),
            final(self).chat() == old(self).chat(),
            final(self).last_tick_ms() == old(self).last_tick_ms(),
            final(self).exit_requested() == old(self).exit_requested(),
    {
        let hide = self.config.is_hide_timer();
        self.countdown.tick(now_ms, hide);
    }

    /// The elapsed share of the countdown at `now_ms`, in whole percent.
    pub fn time_percentage(&self, now_ms: u64) -> (r: Option<u16>)
        ensures
            r == match self.countdown().run {
                None => None,
                Some((start, duration)) => Some(
                    crate::countdown::percentage_at(start, duration, now_ms) as u16,
                ),
            },
    {
        self.countdown.percentage(now_ms)
    }

    /// The chat channel to join: the configured one, when chat is switched on.
    pub fn chat_channel(&self) -> (r: Option<String>)
        ensures
            match r {
                Some(c) => self.config().chat() && self.config().twitch_channel() == Some(c@),
                None => !self.config().chat() || self.config().twitch_channel() is None,
            },
    {
        if self.config.is_chat() {
            self.config.get_twitch_channel()
        } else {
            None
        }
    }

    /// Sets up the chat pane when chat is switched on and a channel is
    /// configured; returns whether it did. The caller then starts the network
    /// task with the pane's `sender`.
    pub fn init_chat(&mut self) -> (started: bool)
        ensures
            started == (old(self).config().chat() && old(self).config().twitch_channel() is Some),
            started ==> (final(self).chat() matches Some(c)
                && c.buffer().messages().len() == 0 && c.buffer().cap() == BUFFER_CAP
                && Some(c.channel_name()) == old(self).config().twitch_channel()
                && c.accent_color() == color_value(old(self).config().color())
                && c.queue_capacity() == QUEUE_CAPACITY),
            !started ==> final(self).chat() == old(self).chat(),
            final(self).config() == old(self).config(),
            final(self).countdown() == old(self).countdown(),
            final(self).last_tick_ms() == old(self).last_tick_ms(),
            final(self).exit_requested() == old(self).exit_requested(),
    {
        match self.chat_channel() {
            Some(channel) => {
                let color = self.config.get_color();
                self.chat = Some(TwitchChat::new(color, channel));
                true
            },
            None => false,
        }
    }

    /// The chat pane, if there is one.
    pub fn get_chat(&self) -> (r: Option<&TwitchChat>)
        ensures
            match r {
                Some(c) => self.chat() == Some(*c),
                None => self.chat() is None,
            },
    {
        match &self.chat {
            Some(c) => Some(c),
            None => None,
        }
    }

    /// Records the height of the chat's message area, if there is a chat pane.
    /// The pane keeps its messages; only the tallest height seen may grow.
    pub fn observe_chat_height(&mut self, height: usize)
        ensures
            match (old(self).chat(), final(self).chat()) {
                (Some(a), Some(b)) => {
                    &&& b.buffer().max_height() == max_usize(a.buffer().max_height(), height)
                    &&& b.buffer().messages() == a.buffer().messages()
                    &&& b.buffer().cap() == a.buffer().cap()
                    &&& b.accent_color() == a.accent_color()
                    &&& b.channel_name() == a.channel_name()
                    &&& b.queue_capacity() == a.queue_capacity()
                },
                (None, None) => true,
                _ => false,
            },
            final(self).config() == old(self).config(),
            final(self).countdown() == old(self).countdown(),
            final(self).last_tick_ms() == old(self).last_tick_ms(),
            final(self).exit_requested() == old(self).exit_requested(),
    {
        if let Some(chat) = self.chat.as_mut() {
            chat.observe_height(height);
        }
    }

    /// Ends the program at the next turn of the loop. The caller runs the exit
    /// commands and stops its helpers.
    pub fn exit(&mut self)
        ensures
            final(self).exit_requested(),
            final(self).config() == old(self).config(),
            final(self).chat() == old(self).chat(),
            final(self).countdown() == old(self).countdown(),
            final(self).last_tick_ms() == old(self).last_tick_ms(),
    {
        self.exit = true;
    }

    /// Handles a key press; returns whether it newly asked the program to end,
    /// that is, it was the quit key and no end had been asked for yet. The
    /// caller then runs the exit commands, once. Other keys change nothing.
    pub fn handle_key_event(&mut self, key: char) -> (quit: bool)
        ensures
            quit == (key == QUIT_KEY && !old(self).exit_requested()),
            final(self).exit_requested() == (old(self).exit_requested() || quit),
            final(self).config() == old(self).config(),
            final(self).chat() == old(self).chat(),
            final(self).countdown() == old(self).countdown(),
            final(self).last_tick_ms() == old(self).last_tick_ms(),
    {
        if key == QUIT_KEY {
            let first = !self.exit;
            self.exit();
            first
        } else {
            false
        }
    }
    /// One turn of the loop's timing at `now_ms`: once `REDRAW_MS` have passed
    /// since the last tick, recomputes the countdown, then drains the chat
    /// queue, and records the tick; returns whether it ticked. Otherwise
    /// nothing changes.
    pub fn step(&mut self, now_ms: u64) -> (ticked: bool)
        ensures
            ticked == (elapsed_ms(old(self).last_tick_ms(), now_ms) >= REDRAW_MS),
            !ticked ==> *final(self) == *old(self),
            ticked ==> final(self).last_tick_ms() == now_ms,
            ticked ==> final(self).countdown().run == old(self).countdown().run,
            ticked ==> final(self).countdown().remaining_ms == match old(self).countdown().run {
                None => old(self).countdown().remaining_ms,
                Some((start, duration)) => remaining_at(
                    start,
                    duration,
                    now_ms,
                    old(self).config().hide_timer(),
                ),
            },
            ticked ==> match (old(self).chat(), final(self).chat()) {
                (Some(a), Some(b)) => {
                    &&& b.accent_color() == a.accent_color()
                    &&& b.channel_name() == a.channel_name()
                    &&& b.buffer().cap() == a.buffer().cap()
                    &&& b.buffer().max_height() == a.buffer().max_height()
                    &&& b.queue_capacity() == a.queue_capacity()
                    &&& exists|received: Seq<TwitchMessage>| #[trigger]
                        b.buffer().messages() == keep_last(
                            a.buffer().messages() + received,
                            a.buffer().limit() as nat,
                        )
                },
                (None, None) => true,
                _ => false,
            },
            final(self).config() == old(self).config(),
            final(self).exit_requested() == old(self).exit_requested(),
    {
        let since: u64 = now_ms.saturating_sub(self.last_tick_ms);
        if since < REDRAW_MS {
            return false;
        }
        self.update_time(now_ms);
        if let Some(chat) = self.chat.as_mut() {
            chat.poll_messages();
        }
        self.last_tick_ms = now_ms;
        true
    }

    /// What the frame at `now_ms` shows: the remaining time as `MM:SS` while it
    /// is shown, the elapsed percentage when the progress bar is on too, the
    /// configured text line by line, and whether the chat pane is there.
    pub fn snapshot(&self, now_ms: u64) -> (r: Snapshot)
        ensures
            r.padding == self.config().padding(),
            r.accent == color_value(self.config().color()),
            match self.countdown().remaining_ms {
                Some(d) => r.time_text matches Some(t) && t@ == clock_text(d as nat),
                None => r.time_text is None,
            },
            r.progress == (if self.countdown().remaining_ms is Some && self.config().progress_bar() {
                match self.countdown().run {
                    None => None,
                    Some((start, duration)) => Some(percentage_at(start, duration, now_ms) as u16),
                }
            } else {
                None
            }),
            r.text_lines.deep_view() == split_seq(self.config().text(), '\n'),
            r.show_chat == self.chat() is Some,
    {
        let time_text = match self.countdown.remaining_ms {
            Some(d) => Some(format_duration(d)),
            None => None,
        };
        let progress = if self.countdown.remaining_ms.is_some() && self.config.is_progress_bar() {
            self.time_percentage(now_ms)
        } else {
            None
        };
        let text = self.config.get_text();
        Snapshot {
            padding: self.config.get_padding(),
            accent: self.config.get_color(),
            time_text,
            progress,
            text_lines: split_on(text.as_str(), '\n'),
            show_chat: self.chat.is_some(),
        }
    }
}

} // verus!
