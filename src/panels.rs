use vstd::prelude::*;

use crate::instrument::Instrument;
use crate::layout::{plan, Panels, Rect};
use crate::market::{banner_view, App};
use crate::text::{decimal_digits, price_string, price_text, signed_string, signed_text};

verus! {

/// Units of a gauge ratio: `RATIO_SCALE` is a full gauge.
pub const RATIO_SCALE: i64 = 1_000_000;

/// Largest value of a normalized history sample.
pub const CHART_TOP: u64 = 101;

/// Spans of a history at or below this (0.0001) count as flat.
pub const FLAT_SPAN: i64 = 100;

/// Headlines shown in the news panel at most.
pub const NEWS_LIMIT: usize = 3;

/// Where `price` lies in `[low, high]`, in `RATIO_SCALE` units, clamped to the
/// gauge; 0 when the range is empty or inverted.
pub open spec fn gauge_value(price: int, low: int, high: int) -> int {
    if high - low <= 0 {
        0
    } else {
        let q = (price - low) * RATIO_SCALE / (high - low);
        if q < 0 { 0 } else if q > RATIO_SCALE { RATIO_SCALE as int } else { q }
    }
}

/// The day-range gauge ratio of a quote.
pub fn gauge_ratio(price: i64, low: i64, high: i64) -> (r: i64)
    ensures
        r == gauge_value(price as int, low as int, high as int),
        0 <= r <= RATIO_SCALE,
{
    let span: i128 = (high as i128) - (low as i128);
    if span <= 0 {
        return 0;
    }
    let off: i128 = (price as i128) - (low as i128);
    if off <= 0 {
        proof {
            assert(off * RATIO_SCALE <= 0) by (nonlinear_arith)
                requires off <= 0;
            vstd::arithmetic::div_mod::lemma_div_is_ordered(off * RATIO_SCALE, 0, span as int);
        }
        return 0;
    }
    if off >= span {
        proof {
            assert(span * RATIO_SCALE <= off * RATIO_SCALE) by (nonlinear_arith)
                requires off >= span;
            vstd::arithmetic::div_mod::lemma_div_is_ordered(
                span * RATIO_SCALE,
                off * RATIO_SCALE,
                span as int,
            );
            vstd::arithmetic::div_mod::lemma_div_multiples_vanish(RATIO_SCALE as int, span as int);
            assert(span * RATIO_SCALE == RATIO_SCALE * span) by (nonlinear_arith);
        }
        return RATIO_SCALE;
    }
    assert(0 < off * RATIO_SCALE < span * RATIO_SCALE) by (nonlinear_arith)
        requires 0 < off < span;
    let q: i128 = off * (RATIO_SCALE as i128) / span;
    proof {
        vstd::arithmetic::div_mod::lemma_div_is_ordered(
            off * RATIO_SCALE,
            span * RATIO_SCALE,
            span as int,
        );
        vstd::arithmetic::div_mod::lemma_div_multiples_vanish(RATIO_SCALE as int, span as int);
        assert(span * RATIO_SCALE == RATIO_SCALE * span) by (nonlinear_arith);
        vstd::arithmetic::div_mod::lemma_div_pos_is_pos(off * RATIO_SCALE, span as int);
    }
    q as i64
}

/// Smallest element of a non-empty sequence.
pub open spec fn seq_min(s: Seq<i64>) -> int
    decreases s.len(),
{
    if s.len() <= 1 {
        s[0] as int
    } else {
        let m = seq_min(s.drop_last());
        if (s.last() as int) < m { s.last() as int } else { m }
    }
}

/// Largest element of a non-empty sequence.
pub open spec fn seq_max(s: Seq<i64>) -> int
    decreases s.len(),
{
    if s.len() <= 1 {
        s[0] as int
    } else {
        let m = seq_max(s.drop_last());
        if (s.last() as int) > m { s.last() as int } else { m }
    }
}

/// The divisor used to normalize a history: its span, or 1.0 when it is flat.
pub open spec fn chart_span(s: Seq<i64>) -> int {
    if seq_max(s) - seq_min(s) <= FLAT_SPAN { 1_000_000 } else { seq_max(s) - seq_min(s) }
}

/// One normalized sample: its position above the minimum, on a 1..=101 scale.
pub open spec fn chart_sample(v: int, s: Seq<i64>) -> int {
    (v - seq_min(s)) * 100 / chart_span(s) + 1
}

proof fn lemma_min_max_bounds(s: Seq<i64>)
    requires
        s.len() > 0,
    ensures
        forall|i: int| 0 <= i < s.len() ==> seq_min(s) <= #[trigger] s[i] <= seq_max(s),
        seq_min(s) <= seq_max(s),
    decreases s.len(),
{
    if s.len() > 1 {
        lemma_min_max_bounds(s.drop_last());
        assert forall|i: int| 0 <= i < s.len() implies seq_min(s) <= #[trigger] s[i] <= seq_max(s) by {
            if i < s.len() - 1 {
                assert(s[i] == s.drop_last()[i]);
            }
        }
    }
}

/// `c` is the chart series of history `h`.
pub open spec fn chart_of(h: Seq<i64>, c: Seq<u64>) -> bool {
    &&& h.len() == 0 ==> c == seq![0u64]
    &&& h.len() > 0 ==> c.len() == h.len() && forall|i: int|
        0 <= i < c.len() ==> #[trigger] c[i] == chart_sample(h[i] as int, h)
}

/// The chart series of a price history: one sample per price, min-max scaled
/// to 1..=101, or a single 0 for an empty history.
pub fn normalize_history(history: &Vec<i64>) -> (r: Vec<u64>)
    ensures
        chart_of(history@, r@),
        forall|i: int| 0 <= i < r@.len() ==> #[trigger] r@[i] <= CHART_TOP,
{
    let n = history.len();
    if n == 0 {
        let mut r: Vec<u64> = Vec::new();
        r.push(0);
        return r;
    }
    let mut lo: i64 = history[0];
    let mut hi: i64 = history[0];
    let mut i: usize = 1;
    while i < n
        invariant
            n == history@.len(),
            1 <= i <= n,
            lo == seq_min(history@.subrange(0, i as int)),
            hi == seq_max(history@.subrange(0, i as int)),
        decreases n - i,
    {
        proof {
            let s = history@.subrange(0, i as int + 1);
            assert(s.drop_last() =~= history@.subrange(0, i as int));
        }
        if history[i] < lo {
            lo = history[i];
        }
        if history[i] > hi {
            hi = history[i];
        }
        i += 1;
    }
    assert(history@.subrange(0, n as int) =~= history@);
    proof {
        lemma_min_max_bounds(history@);
    }
    let diff: i128 = (hi as i128) - (lo as i128);
    let span: i128 = if diff <= FLAT_SPAN as i128 { 1_000_000 } else { diff };
    let mut r: Vec<u64> = Vec::new();
    let mut k: usize = 0;
    while k < n
        invariant
            n == history@.len(),
            k <= n,
            r@.len() == k,
            lo == seq_min(history@),
            diff == hi - lo,
            span == (if diff <= FLAT_SPAN { 1_000_000 } else { diff }),
            span == chart_span(history@),
            forall|j: int| 0 <= j < history@.len() ==> lo <= #[trigger] history@[j] <= hi,
            hi == seq_max(history@),
            forall|j: int|
                0 <= j < k ==> #[trigger] r@[j] == chart_sample(history@[j] as int, history@),
            forall|j: int| 0 <= j < k ==> #[trigger] r@[j] <= CHART_TOP,
        decreases n - k,
    {
        let off: i128 = (history[k] as i128) - (lo as i128);
        assert(0 <= off <= diff);
        assert(0 <= off * 100 <= span * 100) by (nonlinear_arith)
            requires
                0 <= off <= diff,
                diff <= span || (diff <= 100 && span == 1_000_000),
        ;
        let q: i128 = off * 100 / span;
        proof {
            vstd::arithmetic::div_mod::lemma_div_is_ordered(off * 100, span * 100, span as int);
            vstd::arithmetic::div_mod::lemma_div_multiples_vanish(100, span as int);
            assert(span * 100 == 100 * span) by (nonlinear_arith);
            vstd::arithmetic::div_mod::lemma_div_pos_is_pos(off * 100, span as int);
        }
        r.push((q + 1) as u64);
        k += 1;
    }
    r
}

/// A flat history charts as a constant series of ones.
pub proof fn lemma_flat_history_is_constant(s: Seq<i64>)
    requires
        s.len() > 0,
        forall|i: int| 0 <= i < s.len() ==> #[trigger] s[i] == s[0],
    ensures
        forall|i: int| 0 <= i < s.len() ==> chart_sample(#[trigger] s[i] as int, s) == 1,
{
    lemma_flat_min_max(s);
}

proof fn lemma_flat_min_max(s: Seq<i64>)
    requires
        s.len() > 0,
        forall|i: int| 0 <= i < s.len() ==> #[trigger] s[i] == s[0],
    ensures
        seq_min(s) == s[0],
        seq_max(s) == s[0],
    decreases s.len(),
{
    if s.len() > 1 {
        let p = s.drop_last();
        assert forall|i: int| 0 <= i < p.len() implies #[trigger] p[i] == p[0] by {
            assert(p[i] == s[i]);
        }
        lemma_flat_min_max(p);
    }
}

/// Whether a change is shown as a gain: zero counts as one.
pub open spec fn is_gain(change: int) -> bool {
    change >= 0
}

/// One formatted watchlist row.
pub struct WatchRow {
    pub symbol: String,
    pub last: String,
    pub change: String,
    pub change_pct: String,
    pub gain: bool,
    pub selected: bool,
}

/// `change_pct` (millionths of a percent) with two decimals, a sign and `%`.
pub open spec fn percent_text(change_pct: int) -> Seq<char> {
    signed_text(change_pct) + seq!['%']
}

/// `change_pct` written as `percent_text` does.
pub fn percent_string(change_pct: i64) -> (r: String)
    ensures
        r@ == percent_text(change_pct as int),
{
    let mut r = signed_string(change_pct);
    r.append("%");
    proof {
        reveal_strlit("%");
    }
    r
}

pub open spec fn row_of(s: Instrument, selected: bool, r: WatchRow) -> bool {
    &&& r.symbol@ == s.symbol@
    &&& r.last@ == price_text(s.price as int)
    &&& r.change@ == signed_text(s.change as int)
    &&& r.change_pct@ == percent_text(s.change_pct as int)
    &&& r.gain == is_gain(s.change as int)
    &&& r.selected == selected
}

/// The watchlist rows, one per instrument in display order; exactly the
/// selected one is highlighted.
pub fn watch_rows(app: &App) -> (r: Vec<WatchRow>)
    requires
        app.wf(),
    ensures
        r@.len() == app.stocks@.len(),
        forall|i: int|
            0 <= i < r@.len() ==> row_of(
                app.stocks@[i],
                i == app.selected,
                #[trigger] r@[i],
            ),
{
    let mut r: Vec<WatchRow> = Vec::new();
    let mut i: usize = 0;
    while i < app.stocks.len()
        invariant
            app.wf(),
            i <= app.stocks@.len(),
            r@.len() == i,
            forall|k: int|
                0 <= k < i ==> row_of(app.stocks@[k], k == app.selected, #[trigger] r@[k]),
        decreases app.stocks@.len() - i,
    {
        let s = &app.stocks[i];
        assert(s.wf());
        r.push(WatchRow {
            symbol: s.symbol.clone(),
            last: price_string(s.price),
            change: signed_string(s.change),
            change_pct: percent_string(s.change_pct),
            gain: s.change >= 0,
            selected: i == app.selected,
        });
        i += 1;
    }
    r
}

/// The formatted quote block of one instrument, with its day-range gauge.
pub struct QuoteView {
    pub symbol: String,
    pub name: String,
    pub last: String,
    pub change: String,
    pub change_pct: String,
    pub gain: bool,
    pub volume: String,
    pub vwap: String,
    pub open: String,
    pub gauge: i64,
    pub gauge_label: String,
}

/// The gauge caption: `price  |  low - high`.
pub open spec fn gauge_caption(s: Instrument) -> Seq<char> {
    price_text(s.price as int) + seq![' ', ' ', '|', ' ', ' '] + price_text(s.day_range_low as int)
        + seq![' ', '-', ' '] + price_text(s.day_range_high as int)
}

/// Volume in millions with two decimals and an `M`.
pub open spec fn volume_text(volume: nat) -> Seq<char> {
    crate::text::fixed2_text(volume, false, false) + seq!['M']
}

/// `r` is the quote block of `s`.
pub open spec fn quote_of(s: Instrument, r: QuoteView) -> bool {
    &&& r.symbol@ == s.symbol@
    &&& r.name@ == s.name@
    &&& r.last@ == price_text(s.price as int)
    &&& r.change@ == signed_text(s.change as int)
    &&& r.change_pct@ == percent_text(s.change_pct as int)
    &&& r.gain == is_gain(s.change as int)
    &&& r.volume@ == volume_text(s.volume as nat)
    &&& r.vwap@ == price_text(s.vwap as int)
    &&& r.open@ == price_text(s.open as int)
    &&& r.gauge == gauge_value(s.price as int, s.day_range_low as int, s.day_range_high as int)
    &&& r.gauge_label@ == gauge_caption(s)
}

pub fn quote_view(s: &Instrument) -> (r: QuoteView)
    requires
        s.wf(),
    ensures
        quote_of(*s, r),
{
    let mut label = price_string(s.price);
    label.append("  |  ");
    label.append(price_string(s.day_range_low).as_str());
    label.append(" - ");
    label.append(price_string(s.day_range_high).as_str());
    proof {
        reveal_strlit("  |  ");
        reveal_strlit(" - ");
    }
    assert(label@ =~= gauge_caption(*s));
    let mut volume = crate::text::fixed2(s.volume, false, false);
    volume.append("M");
    proof {
        reveal_strlit("M");
    }
    assert(volume@ =~= volume_text(s.volume as nat));
    QuoteView {
        symbol: s.symbol.clone(),
        name: s.name.clone(),
        last: price_string(s.price),
        change: signed_string(s.change),
        change_pct: percent_string(s.change_pct),
        gain: s.change >= 0,
        volume,
        vwap: price_string(s.vwap),
        open: price_string(s.open),
        gauge: gauge_ratio(s.price, s.day_range_low, s.day_range_high),
        gauge_label: label,
    }
}

/// The headlines shown: the first `NEWS_LIMIT` of them, or all when fewer.
pub fn top_headlines(app: &App) -> (r: Vec<String>)
    ensures
        r@ == app.headlines@.subrange(
            0,
            if app.headlines@.len() < NEWS_LIMIT { app.headlines@.len() as int } else { NEWS_LIMIT as int },
        ),
{
    let n = if app.headlines.len() < NEWS_LIMIT { app.headlines.len() } else { NEWS_LIMIT };
    let mut r: Vec<String> = Vec::new();
    let mut i: usize = 0;
    while i < n
        invariant
            n <= app.headlines@.len(),
            i <= n,
            r@ == app.headlines@.subrange(0, i as int),
        decreases n - i,
    {
        r.push(app.headlines[i].clone());
        i += 1;
        assert(r@ =~= app.headlines@.subrange(0, i as int));
    }
    r
}

/// How the API key is shown: never in clear.
pub fn api_key_display(app: &App) -> (r: &'static str)
    ensures
        app.api_key@.len() == 0 ==> r@ == "<not set>"@,
        app.api_key@.len() > 0 ==> r@ == "********"@,
{
    if app.api_key.as_str().unicode_len() == 0 {
        "<not set>"
    } else {
        "********"
    }
}

/// The header's session line: `SESSION <session>  |  SYMBOLS <count>`.
pub fn session_line(app: &App) -> (r: String)
    ensures
        r@ == "SESSION "@ + app.session@ + "  |  SYMBOLS "@ + decimal_digits(app.stocks@.len() as nat),
{
    let mut r = String::from_str("SESSION ");
    r.append(app.session.as_str());
    r.append("  |  SYMBOLS ");
    let count = crate::text::count_string(app.stocks.len());
    r.append(count.as_str());
    r
}

/// The trading-hours label shown in the footer.
pub fn market_status() -> (r: &'static str)
    ensures
        r@ == "NYSE 09:30-16:00 ET"@,
{
    "NYSE 09:30-16:00 ET"
}

/// The footer's key help followed by the trading-hours label.
pub fn footer_line() -> (r: String)
    ensures
        r@ == "VIM KEYS: q quit  j/k move  r reset  |  "@ + "NYSE 09:30-16:00 ET"@,
{
    let mut r = String::from_str("VIM KEYS: q quit  j/k move  r reset  |  ");
    r.append(market_status());
    r
}

/// One sidebar entry and whether it has the focus.
pub struct ExplorerRow {
    pub label: String,
    pub focused: bool,
}

/// The sidebar entries in order; exactly the focused one is marked.
pub fn explorer_rows(app: &App) -> (r: Vec<ExplorerRow>)
    ensures
        r@.len() == app.explorer_items@.len(),
        forall|i: int|
            0 <= i < r@.len() ==> (#[trigger] r@[i]).label == app.explorer_items@[i] && r@[i].focused == (i
                == app.explorer_selected),
{
    let mut r: Vec<ExplorerRow> = Vec::new();
    let mut i: usize = 0;
    while i < app.explorer_items.len()
        invariant
            i <= app.explorer_items@.len(),
            r@.len() == i,
            forall|k: int|
                0 <= k < i ==> (#[trigger] r@[k]).label == app.explorer_items@[k] && r@[k].focused == (k
                    == app.explorer_selected),
        decreases app.explorer_items@.len() - i,
    {
        r.push(ExplorerRow { label: app.explorer_items[i].clone(), focused: i == app.explorer_selected });
        i += 1;
    }
    r
}

/// Everything one frame shows: where each panel goes and what it holds.
pub struct Screen {
    pub panels: Panels,
    pub session_line: String,
    pub banner_line: String,
    pub user: String,
    pub api_key: &'static str,
    pub rows: Vec<WatchRow>,
    pub quote: Option<QuoteView>,
    pub chart: Vec<u64>,
    pub news: Vec<String>,
    pub explorer: Vec<ExplorerRow>,
    pub footer_line: String,
}

/// Projects the state onto the screen partition of `area`. The quote block
/// and chart show the selected instrument; with an empty watchlist there is
/// no quote and the chart is the single default sample.
pub fn render(app: &App, area: Rect) -> (r: Screen)
    requires
        app.wf(),
    ensures
        r.panels.arranged(area),
        r.session_line@ == "SESSION "@ + app.session@ + "  |  SYMBOLS "@ + decimal_digits(
            app.stocks@.len() as nat,
        ),
        r.banner_line@ == seq![' '] + banner_view(app.banner@, app.banner_offset as nat) + seq![' '],
        r.user@ == app.user@,
        app.api_key@.len() == 0 ==> r.api_key@ == "<not set>"@,
        app.api_key@.len() > 0 ==> r.api_key@ == "********"@,
        r.rows@.len() == app.stocks@.len(),
        forall|i: int|
            0 <= i < r.rows@.len() ==> row_of(app.stocks@[i], i == app.selected, #[trigger] r.rows@[i]),
        app.stocks@.len() == 0 ==> r.quote.is_none() && r.chart@ == seq![0u64],
        app.stocks@.len() > 0 ==> r.quote.is_some() && quote_of(
            app.stocks@[app.selected as int],
            r.quote.unwrap(),
        ),
        app.stocks@.len() > 0 ==> chart_of(app.stocks@[app.selected as int].history@, r.chart@),
        r.news@ == app.headlines@.subrange(
            0,
            if app.headlines@.len() < NEWS_LIMIT { app.headlines@.len() as int } else { NEWS_LIMIT as int },
        ),
        r.explorer@.len() == app.explorer_items@.len(),
        forall|i: int|
            0 <= i < r.explorer@.len() ==> (#[trigger] r.explorer@[i]).label == app.explorer_items@[i]
                && r.explorer@[i].focused == (i == app.explorer_selected),
        r.footer_line@ == "VIM KEYS: q quit  j/k move  r reset  |  "@ + "NYSE 09:30-16:00 ET"@,
{
    let panels = plan(area);
    let mut banner_line = String::from_str(" ");
    banner_line.append(app.banner_text().as_str());
    banner_line.append(" ");
    proof {
        reveal_strlit(" ");
    }
    let (quote, chart) = if app.stocks.len() == 0 {
        (None, normalize_history(&Vec::new()))
    } else {
        let s = app.current();
        (Some(quote_view(s)), normalize_history(&s.history.to_vec()))
    };
    Screen {
        panels,
        session_line: session_line(app),
        banner_line,
        user: app.user.clone(),
        api_key: api_key_display(app),
        rows: watch_rows(app),
        quote,
        chart,
        news: top_headlines(app),
        explorer: explorer_rows(app),
        footer_line: footer_line(),
    }
}

} // verus!
