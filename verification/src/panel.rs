//! The filter panel's state and how each control changes it.
//!
//! Every input event of the panel (source toggle, text boxes, band and
//! time-window selectors, SNR slider, check box, reset button, and the
//! arrival of the server's default window) is a [`FilterEvent`];
//! [`FilterPanel::apply`] gives the panel state after it.  The browser code
//! feeds the events in and renders the state.
use vstd::prelude::*;

use crate::models::filter::{default_filter_view, opt_str_view, SpotFilter, SpotFilterView, SpotSource};
use crate::text::{
    decimal_int, lemma_decimal_parses_back, parse_i32, parse_i64, parse_int_spec, parse_u64,
    to_uppercase, unicode_uppercase,
};
use vstd::string::{StrSliceExecFns, StringExecFns};

verus! {

/// Time window selected before the server's configuration arrives: 1 hour.
pub const DEFAULT_WINDOW_SECS_FALLBACK: i64 = 3_600;

/// SNR slider position that means "no minimum".
pub const SNR_SLIDER_MIN: i32 = -30;

/// State of the filter panel.
pub struct FilterPanel {
    /// The filter that the panel edits.
    pub filter: SpotFilter,
    /// Selected relative time window, in seconds.
    pub window_secs: i64,
    /// Whether the server's default window has been applied.
    pub config_applied: bool,
    /// Reporter text without a leading `!`, used for autocomplete.
    pub reporter_prefix: String,
}

/// Mathematical value of the panel state.
pub struct FilterPanelView {
    pub filter: SpotFilterView,
    pub window_secs: i64,
    pub config_applied: bool,
    pub reporter_prefix: Seq<char>,
}

impl View for FilterPanel {
    type V = FilterPanelView;

    open spec fn view(&self) -> FilterPanelView {
        FilterPanelView {
            filter: self.filter@,
            window_secs: self.window_secs,
            config_applied: self.config_applied,
            reporter_prefix: self.reporter_prefix@,
        }
    }
}

/// An input event of the panel.
pub enum FilterEvent {
    /// The server's default window (seconds) became known.
    ConfigResolved(i64),
    /// The "Local Receive" source button was clicked.
    SourceLocal,
    /// The "Global" source button was clicked.
    SourceGlobal,
    /// The callsign text box now holds this text.
    CallsignInput(String),
    /// The reporter text box now holds this text.
    ReporterInput(String),
    /// The grid text box now holds this text.
    GridInput(String),
    /// The band selector's value (a dial frequency, or empty for all bands).
    BandChange(String),
    /// The SNR slider's value.
    SnrInput(String),
    /// The time-window selector's value (seconds).
    WindowChange(String),
    /// The "grid spots only" check box.
    GridOnlyChange(bool),
    /// The reset button, with the server's default window if known.
    Reset(Option<i64>),
}

/// Mathematical value of an event.
pub enum FilterEventView {
    ConfigResolved(i64),
    SourceLocal,
    SourceGlobal,
    CallsignInput(Seq<char>),
    ReporterInput(Seq<char>),
    GridInput(Seq<char>),
    BandChange(Seq<char>),
    SnrInput(Seq<char>),
    WindowChange(Seq<char>),
    GridOnlyChange(bool),
    Reset(Option<i64>),
}

impl View for FilterEvent {
    type V = FilterEventView;

    open spec fn view(&self) -> FilterEventView {
        match self {
            FilterEvent::ConfigResolved(s) => FilterEventView::ConfigResolved(*s),
            FilterEvent::SourceLocal => FilterEventView::SourceLocal,
            FilterEvent::SourceGlobal => FilterEventView::SourceGlobal,
            FilterEvent::CallsignInput(t) => FilterEventView::CallsignInput(t@),
            FilterEvent::ReporterInput(t) => FilterEventView::ReporterInput(t@),
            FilterEvent::GridInput(t) => FilterEventView::GridInput(t@),
            FilterEvent::BandChange(t) => FilterEventView::BandChange(t@),
            FilterEvent::SnrInput(t) => FilterEventView::SnrInput(t@),
            FilterEvent::WindowChange(t) => FilterEventView::WindowChange(t@),
            FilterEvent::GridOnlyChange(b) => FilterEventView::GridOnlyChange(*b),
            FilterEvent::Reset(d) => FilterEventView::Reset(*d),
        }
    }
}

/// `None` for empty text, the text otherwise.
pub open spec fn non_empty(t: Seq<char>) -> Option<Seq<char>> {
    if t.len() == 0 {
        None
    } else {
        Some(t)
    }
}

/// `t` without one leading `!`.
pub open spec fn strip_bang(t: Seq<char>) -> Seq<char> {
    if t.len() > 0 && t[0] == '!' {
        t.drop_first()
    } else {
        t
    }
}

/// The value of `str::parse::<i64>` on `t`.
pub open spec fn parse_i64_spec(t: Seq<char>) -> Option<int> {
    parse_int_spec(t, true, i64::MIN as int, i64::MAX as int)
}

/// True when `now - secs` is an `i64`.
pub open spec fn window_fits(now: i64, secs: int) -> bool {
    i64::MIN <= now - secs <= i64::MAX
}

/// True when applying the event at time `now` keeps the window start within
/// `i64`.
pub open spec fn event_fits(ev: FilterEventView, now: i64) -> bool {
    match ev {
        FilterEventView::ConfigResolved(secs) => window_fits(now, secs as int),
        FilterEventView::WindowChange(t) => parse_i64_spec(t) matches Some(secs) ==> window_fits(
            now,
            secs,
        ),
        FilterEventView::Reset(d) => window_fits(
            now,
            match d {
                Some(s) => s as int,
                None => DEFAULT_WINDOW_SECS_FALLBACK as int,
            },
        ),
        _ => true,
    }
}

/// The filter with a relative window of `secs` ending now: starts at
/// `now - secs`, no end.
pub open spec fn with_window(f: SpotFilterView, now: i64, secs: int) -> SpotFilterView {
    SpotFilterView { since_unix: Some((now - secs) as i64), until_unix: None, ..f }
}

/// The panel state after an event at time `now`.
pub open spec fn panel_step(p: FilterPanelView, ev: FilterEventView, now: i64) -> FilterPanelView {
    match ev {
        FilterEventView::ConfigResolved(secs) => if p.config_applied {
            p
        } else {
            FilterPanelView {
                filter: with_window(p.filter, now, secs as int),
                window_secs: secs,
                config_applied: true,
                ..p
            }
        },
        FilterEventView::SourceLocal => FilterPanelView {
            filter: SpotFilterView { source: SpotSource::Local, reporter: None, ..p.filter },
            reporter_prefix: Seq::empty(),
            ..p
        },
        FilterEventView::SourceGlobal => FilterPanelView {
            filter: SpotFilterView { source: SpotSource::Global, ..p.filter },
            ..p
        },
        FilterEventView::CallsignInput(t) => FilterPanelView {
            filter: SpotFilterView { callsign: non_empty(t), ..p.filter },
            ..p
        },
        FilterEventView::ReporterInput(t) => FilterPanelView {
            filter: SpotFilterView { reporter: non_empty(t), ..p.filter },
            reporter_prefix: strip_bang(t),
            ..p
        },
        FilterEventView::GridInput(t) => FilterPanelView {
            filter: SpotFilterView { grid: non_empty(unicode_uppercase(t)), ..p.filter },
            ..p
        },
        FilterEventView::BandChange(t) => FilterPanelView {
            filter: SpotFilterView {
                band_hz: match parse_int_spec(t, false, 0, u64::MAX as int) {
                    Some(v) => Some(v as u64),
                    None => None,
                },
                ..p.filter
            },
            ..p
        },
        FilterEventView::SnrInput(t) => match parse_int_spec(
            t,
            true,
            i32::MIN as int,
            i32::MAX as int,
        ) {
            Some(v) => FilterPanelView {
                filter: SpotFilterView {
                    snr_min: if v == SNR_SLIDER_MIN {
                        None
                    } else {
                        Some(v as i32)
                    },
                    ..p.filter
                },
                ..p
            },
            None => p,
        },
        FilterEventView::WindowChange(t) => match parse_i64_spec(t) {
            Some(secs) => FilterPanelView {
                filter: with_window(p.filter, now, secs),
                window_secs: secs as i64,
                ..p
            },
            None => p,
        },
        FilterEventView::GridOnlyChange(b) => FilterPanelView {
            filter: SpotFilterView { grid_only: Some(b), ..p.filter },
            ..p
        },
        FilterEventView::Reset(d) => {
            let secs = match d {
                Some(s) => s,
                None => DEFAULT_WINDOW_SECS_FALLBACK,
            };
            FilterPanelView {
                filter: with_window(default_filter_view(), now, secs as int),
                window_secs: secs,
                reporter_prefix: Seq::empty(),
                ..p
            }
        },
    }
}

fn non_empty_string(t: String) -> (r: Option<String>)
    ensures
        opt_str_view(r) == non_empty(t@),
{
    if t.as_str().unicode_len() == 0 {
        None
    } else {
        Some(t)
    }
}

fn strip_bang_string(t: &str) -> (r: String)
    ensures
        r@ == strip_bang(t@),
{
    let n = t.unicode_len();
    if n > 0 && t.get_char(0) == '!' {
        String::from_str(t.substring_char(1, n))
    } else {
        String::from_str(t)
    }
}

impl FilterPanel {
    /// The panel when the page loads: the default filter, a 1-hour window,
    /// the server default not yet applied, no reporter text.
    pub fn new() -> (p: FilterPanel)
        ensures
            p@ == (FilterPanelView {
                filter: default_filter_view(),
                window_secs: DEFAULT_WINDOW_SECS_FALLBACK,
                config_applied: false,
                reporter_prefix: Seq::empty(),
            }),
    {
        FilterPanel {
            filter: SpotFilter::default(),
            window_secs: DEFAULT_WINDOW_SECS_FALLBACK,
            config_applied: false,
            reporter_prefix: String::new(),
        }
    }

    /// The panel state after `ev` happens at Unix time `now`.
    pub fn apply(self, ev: FilterEvent, now: i64) -> (p: FilterPanel)
        requires
            event_fits(ev@, now),
        ensures
            p@ == panel_step(self@, ev@, now),
    {
        let mut p = self;
        match ev {
            FilterEvent::ConfigResolved(secs) => {
                if !p.config_applied {
                    p.config_applied = true;
                    p.window_secs = secs;
                    p.filter.since_unix = Some(now - secs);
                    p.filter.until_unix = None;
                }
            },
            FilterEvent::SourceLocal => {
                p.filter.source = SpotSource::Local;
                p.filter.reporter = None;
                p.reporter_prefix = String::new();
            },
            FilterEvent::SourceGlobal => {
                p.filter.source = SpotSource::Global;
            },
            FilterEvent::CallsignInput(t) => {
                p.filter.callsign = non_empty_string(t);
            },
            FilterEvent::ReporterInput(t) => {
                p.reporter_prefix = strip_bang_string(t.as_str());
                p.filter.reporter = non_empty_string(t);
            },
            FilterEvent::GridInput(t) => {
                let upper = to_uppercase(t.as_str());
                p.filter.grid = non_empty_string(upper);
            },
            FilterEvent::BandChange(t) => {
                p.filter.band_hz = parse_u64(t.as_str());
            },
            FilterEvent::SnrInput(t) => {
                match parse_i32(t.as_str()) {
                    Some(v) => {
                        p.filter.snr_min = if v == SNR_SLIDER_MIN {
                            None
                        } else {
                            Some(v)
                        };
                    },
                    None => {},
                }
            },
            FilterEvent::WindowChange(t) => {
                match parse_i64(t.as_str()) {
                    Some(secs) => {
                        p.window_secs = secs;
                        p.filter.since_unix = Some(now - secs);
                        p.filter.until_unix = None;
                    },
                    None => {},
                }
            },
            FilterEvent::GridOnlyChange(b) => {
                p.filter.grid_only = Some(b);
            },
            FilterEvent::Reset(d) => {
                let secs = match d {
                    Some(s) => s,
                    None => DEFAULT_WINDOW_SECS_FALLBACK,
                };
                p.window_secs = secs;
                p.reporter_prefix = String::new();
                let mut f = SpotFilter::default();
                f.since_unix = Some(now - secs);
                p.filter = f;
            },
        }
        p
    }

    /// The SNR slider position: the minimum SNR, or the slider's bottom when
    /// there is none.
    pub fn snr_slider_value(&self) -> (v: i32)
        ensures
            v == match self.filter.snr_min {
                Some(s) => s,
                None => SNR_SLIDER_MIN,
            },
    {
        match self.filter.snr_min {
            Some(s) => s,
            None => SNR_SLIDER_MIN,
        }
    }
}

/// Reset gives the default filter apart from the window, whatever the panel
/// held before: all text filters, band, SNR and source are cleared.
pub proof fn lemma_reset_clears_filters(p: FilterPanelView, d: Option<i64>, now: i64)
    ensures
        ({
            let f = panel_step(p, FilterEventView::Reset(d), now).filter;
            &&& f.source == SpotSource::Local
            &&& f.callsign is None && f.reporter is None && f.grid is None
            &&& f.band_hz is None && f.snr_min is None && f.power_max is None
            &&& f.until_unix is None
            &&& f.limit is None && f.offset == Some(0u32) && f.grid_only == Some(false)
        }),
{
}

/// Reset also selects the default window (the server's, else one hour):
/// the window starts that many seconds before now with no end, and the
/// reporter autocomplete text is cleared; whether the server default was
/// applied is kept.
pub proof fn lemma_reset_selects_default_window(p: FilterPanelView, d: Option<i64>, now: i64)
    ensures
        ({
            let secs: int = match d {
                Some(s) => s as int,
                None => 3600,
            };
            let q = panel_step(p, FilterEventView::Reset(d), now);
            &&& q.window_secs == secs
            &&& q.filter.since_unix == Some((now - secs) as i64)
            &&& q.filter.until_unix is None
            &&& q.reporter_prefix.len() == 0
            &&& q.config_applied == p.config_applied
        }),
{
}

/// Each text box sets its own filter field to the text typed, or clears it
/// when the box is empty, and changes nothing else; the reporter box also
/// sets the autocomplete text to what was typed without a leading `!`.  The
/// "Global" button only switches the source.
pub proof fn lemma_text_boxes_set_their_field(p: FilterPanelView, t: Seq<char>, now: i64)
    ensures
        panel_step(p, FilterEventView::CallsignInput(t), now) == (FilterPanelView {
            filter: SpotFilterView {
                callsign: if t.len() == 0 {
                    None
                } else {
                    Some(t)
                },
                ..p.filter
            },
            ..p
        }),
        panel_step(p, FilterEventView::ReporterInput(t), now) == (FilterPanelView {
            filter: SpotFilterView {
                reporter: if t.len() == 0 {
                    None
                } else {
                    Some(t)
                },
                ..p.filter
            },
            reporter_prefix: if t.len() > 0 && t[0] == '!' {
                t.subrange(1, t.len() as int)
            } else {
                t
            },
            ..p
        }),
        panel_step(p, FilterEventView::SourceGlobal, now) == (FilterPanelView {
            filter: SpotFilterView { source: SpotSource::Global, ..p.filter },
            ..p
        }),
        panel_step(p, FilterEventView::GridInput(t), now).filter.grid is Some
            ==> panel_step(p, FilterEventView::GridInput(t), now).filter.grid == Some(
            unicode_uppercase(t),
        ),
{
}

/// A band, SNR or time-window value in decimal sets the filter as chosen:
/// the band's dial frequency; the minimum SNR, except that the slider's
/// bottom (-30 dB) means no minimum; the window length, starting that many
/// seconds before now with no end.  An empty band value means all bands.
pub proof fn lemma_selectors_set_their_field(
    p: FilterPanelView,
    dial: u64,
    snr: i32,
    secs: i64,
    now: i64,
)
    ensures
        panel_step(p, FilterEventView::BandChange(decimal_int(dial as int)), now).filter.band_hz
            == Some(dial),
        panel_step(p, FilterEventView::BandChange(Seq::empty()), now).filter.band_hz is None,
        panel_step(p, FilterEventView::SnrInput(decimal_int(snr as int)), now).filter.snr_min == (
        if snr == -30 {
            None
        } else {
            Some(snr)
        }),
        panel_step(p, FilterEventView::WindowChange(decimal_int(secs as int)), now).window_secs
            == secs,
        panel_step(
            p,
            FilterEventView::WindowChange(decimal_int(secs as int)),
            now,
        ).filter.since_unix == Some((now - secs) as i64),
        panel_step(
            p,
            FilterEventView::WindowChange(decimal_int(secs as int)),
            now,
        ).filter.until_unix is None,
{
    lemma_decimal_parses_back(dial as int, false, 0, u64::MAX as int);
    lemma_decimal_parses_back(snr as int, true, i32::MIN as int, i32::MAX as int);
    lemma_decimal_parses_back(secs as int, true, i64::MIN as int, i64::MAX as int);
}

/// The server's default window is applied at most once: after it has been
/// applied, a later one changes nothing.
pub proof fn lemma_config_applied_once(p: FilterPanelView, a: i64, b: i64, now1: i64, now2: i64)
    requires
        !p.config_applied,
    ensures
        ({
            let q = panel_step(p, FilterEventView::ConfigResolved(a), now1);
            &&& q.config_applied
            &&& q.window_secs == a
            &&& panel_step(q, FilterEventView::ConfigResolved(b), now2) == q
        }),
{
}

/// The "grid spots only" box sets the filter's grid-only flag to exactly the
/// box's state, whatever it was before, and changes nothing else; so ticking
/// and then unticking it turns the restriction off again.
pub proof fn lemma_grid_only_follows_checkbox(p: FilterPanelView, b: bool, now: i64)
    ensures
        panel_step(p, FilterEventView::GridOnlyChange(b), now).filter.grid_only == Some(b),
        panel_step(p, FilterEventView::GridOnlyChange(b), now).filter.source == p.filter.source,
        panel_step(p, FilterEventView::GridOnlyChange(b), now).filter.callsign == p.filter.callsign,
        panel_step(p, FilterEventView::GridOnlyChange(b), now).filter.reporter == p.filter.reporter,
        panel_step(p, FilterEventView::GridOnlyChange(b), now).filter.grid == p.filter.grid,
        panel_step(p, FilterEventView::GridOnlyChange(b), now).filter.band_hz == p.filter.band_hz,
        panel_step(p, FilterEventView::GridOnlyChange(b), now).filter.snr_min == p.filter.snr_min,
        panel_step(p, FilterEventView::GridOnlyChange(b), now).filter.power_max
            == p.filter.power_max,
        panel_step(p, FilterEventView::GridOnlyChange(b), now).filter.since_unix
            == p.filter.since_unix,
        panel_step(p, FilterEventView::GridOnlyChange(b), now).filter.until_unix
            == p.filter.until_unix,
        panel_step(p, FilterEventView::GridOnlyChange(b), now).filter.limit == p.filter.limit,
        panel_step(p, FilterEventView::GridOnlyChange(b), now).filter.offset == p.filter.offset,
        panel_step(p, FilterEventView::GridOnlyChange(b), now).window_secs == p.window_secs,
        panel_step(p, FilterEventView::GridOnlyChange(b), now).config_applied == p.config_applied,
        panel_step(p, FilterEventView::GridOnlyChange(b), now).reporter_prefix
            == p.reporter_prefix,
        panel_step(
            panel_step(p, FilterEventView::GridOnlyChange(true), now),
            FilterEventView::GridOnlyChange(false),
            now,
        ).filter.grid_only == Some(false),
{
}

/// Switching to the local source clears the reporter filter and its
/// autocomplete text.
pub proof fn lemma_local_source_clears_reporter(p: FilterPanelView, now: i64)
    ensures
        ({
            let q = panel_step(p, FilterEventView::SourceLocal, now);
            &&& q.filter.source == SpotSource::Local
            &&& q.filter.reporter is None
            &&& q.reporter_prefix.len() == 0
        }),
{
}

} // verus!
