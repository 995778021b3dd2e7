//! The state behind the settings window of the plugin menu: the window's
//! visibility, the configuration being edited and the timeout field's text.
//! Drawing the widgets is the host's job; this decides what the buttons do.
use vstd::prelude::*;
use crate::config::Config;
use crate::decimal::{decimal_digits, format_u64, lemma_decimal_round_trip, parse_u64, parsed_u64, unsigned_body};

verus! {

/// The timeout, in milliseconds, saved when the timeout field is not a number.
pub const TIMEOUT_FALLBACK_MS: u64 = 500;

/// The timeout that saving the field's `text` stores.
pub open spec fn timeout_from_text(text: Seq<char>) -> u64 {
    match parsed_u64(text) {
        Some(ms) => ms,
        None => TIMEOUT_FALLBACK_MS,
    }
}

/// Saving stores the number the timeout text spells where it spells one,
/// and 500 for every other text: one that is empty, is a lone `+`, or
/// holds anything but ASCII digits after an optional leading `+`.
pub proof fn lemma_saved_timeout(text: Seq<char>)
    ensures
        parsed_u64(text) matches Some(ms) ==> timeout_from_text(text) == ms,
        parsed_u64(text) is None ==> timeout_from_text(text) == 500,
        text.len() == 0 ==> timeout_from_text(text) == 500,
        ({
            let body = if text.len() > 0 && text[0] == '+' {
                text.subrange(1, text.len() as int)
            } else {
                text
            };
            !(body.len() > 0 && forall|i: int| 0 <= i < body.len() ==> '0' <= #[trigger] body[i] <= '9')
                ==> timeout_from_text(text) == 500
        }),
        forall|ms: u64| timeout_from_text(decimal_digits(ms as nat)) == ms,
{
    let body = if text.len() > 0 && text[0] == '+' {
        text.subrange(1, text.len() as int)
    } else {
        text
    };
    assert(body =~= unsigned_body(text));
    assert forall|ms: u64| timeout_from_text(decimal_digits(ms as nat)) == ms by {
        lemma_decimal_round_trip(ms);
    }
}

/// The settings window's state.
pub struct SettingsWindow {
    /// Whether the window is shown.
    pub config_window: bool,
    /// The configuration as edited in the window.
    pub config: Config,
    /// The text of the timeout field.
    pub notifier_timeout_ms: String,
}

impl SettingsWindow {
    /// A closed window whose fields show `current`.
    pub fn new(current: &Config) -> (w: SettingsWindow)
        ensures
            !w.config_window,
            w.config == *current,
            w.notifier_timeout_ms@ == decimal_digits(current.notifier_timeout_ms as nat),
    {
        SettingsWindow {
            config_window: false,
            config: current.clone(),
            notifier_timeout_ms: format_u64(current.notifier_timeout_ms),
        }
    }

    /// The menu's settings button was clicked: the window is shown.
    pub fn open_from_menu(&mut self)
        ensures
            final(self).config_window,
            final(self).config == old(self).config,
            final(self).notifier_timeout_ms == old(self).notifier_timeout_ms,
    {
        self.config_window = true;
    }

    /// Ends a frame in which the window was drawn: "cancel" puts `current`
    /// (the configuration in force) back into the window; "save" then takes
    /// the timeout from its field (500 where the text is no number) and
    /// returns the configuration to save. Either button closes the window;
    /// so does its close box, which has already cleared `config_window`.
    pub fn finish_frame(&mut self, cancel_clicked: bool, save_clicked: bool, current: &Config) -> (saved: Option<Config>)
        ensures
            ({
                let base = if cancel_clicked { *current } else { old(self).config };
                if save_clicked {
                    &&& final(self).config == (Config {
                        notifier_host: base.notifier_host,
                        notifier_timeout_ms: timeout_from_text(old(self).notifier_timeout_ms@),
                        enable: base.enable,
                    })
                    &&& saved == Some(final(self).config)
                } else {
                    &&& final(self).config == base
                    &&& saved.is_none()
                }
            }),
            final(self).notifier_timeout_ms == old(self).notifier_timeout_ms,
            final(self).config_window == (old(self).config_window && !cancel_clicked && !save_clicked),
    {
        let mut open = true;
        if cancel_clicked {
            open = false;
            self.config = current.clone();
        }
        let mut saved: Option<Config> = None;
        if save_clicked {
            let ms = match parse_u64(self.notifier_timeout_ms.as_str()) {
                Some(ms) => ms,
                None => TIMEOUT_FALLBACK_MS,
            };
            self.config.notifier_timeout_ms = ms;
            saved = Some(self.config.clone());
            open = false;
        }
        self.config_window = self.config_window && open;
        saved
    }
}

/// Saving a window that was opened on `c` and not edited stores `c`
/// unchanged: the timeout text it starts with reads back as `c`'s timeout.
pub proof fn lemma_save_unedited(c: Config)
    ensures
        (Config {
            notifier_host: c.notifier_host,
            notifier_timeout_ms: timeout_from_text(decimal_digits(c.notifier_timeout_ms as nat)),
            enable: c.enable,
        }) == c,
{
    lemma_decimal_round_trip(c.notifier_timeout_ms);
}

} // verus!
