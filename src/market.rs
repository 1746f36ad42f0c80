use vstd::prelude::*;

use crate::instrument::{advanced, Instrument, STEP_MAX, STEP_MIN, VOLUME_STEP_MAX, VOLUME_STEP_MIN};
use crate::random::random_in;
use crate::HISTORY_LEN;

verus! {

/// Text appended after every banner line.
pub open spec fn banner_gap() -> Seq<char> {
    seq![' ', ' ', ' ']
}

/// All banner lines, each followed by the gap, concatenated in order.
pub open spec fn joined_banner(lines: Seq<String>) -> Seq<char>
    decreases lines.len(),
{
    if lines.len() == 0 {
        Seq::empty()
    } else {
        joined_banner(lines.drop_last()) + lines.last()@ + banner_gap()
    }
}

/// `s` rotated left by `k` characters.
pub open spec fn rotate_left(s: Seq<char>, k: int) -> Seq<char> {
    s.subrange(k, s.len() as int) + s.subrange(0, k)
}

/// Shown in the banner when there is nothing to scroll.
pub open spec fn no_headlines() -> Seq<char> {
    seq!['N', 'O', ' ', 'H', 'E', 'A', 'D', 'L', 'I', 'N', 'E', 'S']
}

/// What the banner shows for the given lines at the given scroll offset.
pub open spec fn banner_view(lines: Seq<String>, offset: nat) -> Seq<char> {
    let j = joined_banner(lines);
    if j.len() == 0 {
        no_headlines()
    } else {
        rotate_left(j, (offset % j.len()) as int)
    }
}

/// Index after moving forward by one, clamped to the last entry (0 when empty).
pub open spec fn next_index(selected: int, count: int) -> int {
    let last = if count > 0 { count - 1 } else { 0 };
    if selected + 1 < last { selected + 1 } else { last }
}

/// Index after moving back by one, clamped at 0.
pub open spec fn prev_index(selected: int) -> int {
    if selected > 0 { selected - 1 } else { selected }
}

/// `new` is `old` after one tick whose price step and volume increment lie in
/// the simulation's draw ranges.
pub open spec fn drawn_advance(old: Instrument, new: Instrument) -> bool {
    exists|step: int, volume_step: int|
        STEP_MIN <= step < STEP_MAX && VOLUME_STEP_MIN <= volume_step < VOLUME_STEP_MAX
            && #[trigger] advanced(old, new, step, volume_step)
}

/// Milliseconds between simulation ticks.
pub const PRICE_UPDATE_MS: u64 = 900;

/// Milliseconds between banner scroll steps.
pub const BANNER_TICK_MS: u64 = 120;

/// Longest wait for input before the timers are checked again.
pub const POLL_MS: u64 = 250;

/// How long to wait for input, given the time since the last poll period began.
pub fn poll_timeout_ms(since_poll_ms: u64) -> (r: u64)
    ensures
        r == (if since_poll_ms >= POLL_MS { 0 } else { POLL_MS - since_poll_ms }),
        r <= POLL_MS,
{
    if since_poll_ms >= POLL_MS { 0 } else { POLL_MS - since_poll_ms }
}

/// A watchlist navigation step.
#[derive(Clone, Copy, Debug, PartialEq, Eq, Structural)]
pub enum SelectionMove {
    Next,
    Prev,
    Reset,
}

/// A key press, as far as the dashboard tells keys apart.
#[derive(Clone, Copy, Debug, PartialEq, Eq, Structural)]
pub enum Key {
    Char(char),
    Up,
    Down,
    Other,
}

/// What a key press asks for.
#[derive(Clone, Copy, Debug, PartialEq, Eq, Structural)]
pub enum Command {
    Quit,
    Move(SelectionMove),
    Ignore,
}

/// The key bindings: `q` quits; `j` or Down selects the next instrument; `k` or
/// Up the previous one; `r` the first one; every other key is ignored.
pub open spec fn command_of(k: Key) -> Command {
    match k {
        Key::Char(c) => if c == 'q' {
            Command::Quit
        } else if c == 'j' {
            Command::Move(SelectionMove::Next)
        } else if c == 'k' {
            Command::Move(SelectionMove::Prev)
        } else if c == 'r' {
            Command::Move(SelectionMove::Reset)
        } else {
            Command::Ignore
        },
        Key::Down => Command::Move(SelectionMove::Next),
        Key::Up => Command::Move(SelectionMove::Prev),
        Key::Other => Command::Ignore,
    }
}

pub fn command_for_key(k: Key) -> (r: Command)
    ensures
        r == command_of(k),
{
    match k {
        Key::Char(c) => if c == 'q' {
            Command::Quit
        } else if c == 'j' {
            Command::Move(SelectionMove::Next)
        } else if c == 'k' {
            Command::Move(SelectionMove::Prev)
        } else if c == 'r' {
            Command::Move(SelectionMove::Reset)
        } else {
            Command::Ignore
        },
        Key::Down => Command::Move(SelectionMove::Next),
        Key::Up => Command::Move(SelectionMove::Prev),
        Key::Other => Command::Ignore,
    }
}

pub open spec fn apply_move(selected: int, count: int, m: SelectionMove) -> int {
    match m {
        SelectionMove::Next => next_index(selected, count),
        SelectionMove::Prev => prev_index(selected),
        SelectionMove::Reset => 0,
    }
}

/// The selected index after applying every move in order.
pub open spec fn apply_moves(selected: int, count: int, moves: Seq<SelectionMove>) -> int
    decreases moves.len(),
{
    if moves.len() == 0 {
        selected
    } else {
        apply_move(apply_moves(selected, count, moves.drop_last()), count, moves.last())
    }
}

pub open spec fn index_in_range(i: int, count: int) -> bool {
    if count == 0 { i == 0 } else { 0 <= i < count }
}

/// The whole dashboard state: watchlist, selection, reference lists, banner
/// scroll position and session labels.
pub struct App {
    pub stocks: Vec<Instrument>,
    pub selected: usize,
    pub headlines: Vec<String>,
    pub banner: Vec<String>,
    pub banner_offset: usize,
    pub user: String,
    pub api_key: String,
    pub explorer_items: Vec<String>,
    pub explorer_selected: usize,
    pub session: String,
}

/// `new` equals `old` in every field but the watchlist selection.
pub open spec fn same_except_selected(old: App, new: App) -> bool {
    &&& new.stocks == old.stocks
    &&& new.headlines == old.headlines
    &&& new.banner == old.banner
    &&& new.banner_offset == old.banner_offset
    &&& new.user == old.user
    &&& new.api_key == old.api_key
    &&& new.explorer_items == old.explorer_items
    &&& new.explorer_selected == old.explorer_selected
    &&& new.session == old.session
}

/// `new` equals `old` in every field but the instruments.
pub open spec fn same_except_stocks(old: App, new: App) -> bool {
    &&& new.selected == old.selected
    &&& new.headlines == old.headlines
    &&& new.banner == old.banner
    &&& new.banner_offset == old.banner_offset
    &&& new.user == old.user
    &&& new.api_key == old.api_key
    &&& new.explorer_items == old.explorer_items
    &&& new.explorer_selected == old.explorer_selected
    &&& new.session == old.session
}

/// `new` equals `old` in every field but the banner offset.
pub open spec fn same_except_banner_offset(old: App, new: App) -> bool {
    &&& new.stocks == old.stocks
    &&& new.selected == old.selected
    &&& new.headlines == old.headlines
    &&& new.banner == old.banner
    &&& new.user == old.user
    &&& new.api_key == old.api_key
    &&& new.explorer_items == old.explorer_items
    &&& new.explorer_selected == old.explorer_selected
    &&& new.session == old.session
}

impl App {
    pub open spec fn wf(&self) -> bool {
        &&& index_in_range(self.selected as int, self.stocks@.len() as int)
        &&& index_in_range(self.explorer_selected as int, self.explorer_items@.len() as int)
        &&& forall|i: int| 0 <= i < self.stocks@.len() ==> #[trigger] self.stocks@[i].wf()
    }

    /// A state over the given lists, with both selections and the banner offset
    /// at 0.
    pub fn from_parts(
        stocks: Vec<Instrument>,
        headlines: Vec<String>,
        banner: Vec<String>,
        explorer_items: Vec<String>,
        user: String,
        api_key: String,
        session: String,
    ) -> (r: App)
        requires
            forall|i: int| 0 <= i < stocks@.len() ==> #[trigger] stocks@[i].wf(),
        ensures
            r.wf(),
            r.stocks@ == stocks@,
            r.headlines@ == headlines@,
            r.banner@ == banner@,
            r.explorer_items@ == explorer_items@,
            r.user == user,
            r.api_key == api_key,
            r.session == session,
            r.selected == 0,
            r.explorer_selected == 0,
            r.banner_offset == 0,
    {
        App {
            stocks,
            selected: 0,
            headlines,
            banner,
            banner_offset: 0,
            user,
            api_key,
            explorer_items,
            explorer_selected: 0,
            session,
        }
    }

    /// The dashboard's fixed watchlist of eight instruments, headlines, banner
    /// lines and explorer entries, for a guest user with no API key.
    pub fn new() -> (r: App)
        ensures
            r.wf(),
            r.stocks@.len() == 8,
            r.headlines@.len() == 4,
            r.banner@.len() == 3,
            r.explorer_items@.len() == 6,
            r.selected == 0,
            r.explorer_selected == 0,
            r.banner_offset == 0,
            r.api_key@.len() == 0,
            forall|i: int| 0 <= i < r.stocks@.len() ==> (#[trigger] r.stocks@[i]).history@.len() == HISTORY_LEN,
            r.user@ == "guest"@,
            r.session@ == "OPEN"@,
            r.stocks@[0].symbol@ == "AAPL"@ && r.stocks@[0].price == 182_420_000,
            r.stocks@[1].symbol@ == "MSFT"@ && r.stocks@[1].price == 413_180_000,
            r.stocks@[2].symbol@ == "NVDA"@ && r.stocks@[2].price == 738_440_000,
            r.stocks@[3].symbol@ == "TSLA"@ && r.stocks@[3].price == 196_080_000,
            r.stocks@[4].symbol@ == "AMZN"@ && r.stocks@[4].price == 171_520_000,
            r.stocks@[5].symbol@ == "META"@ && r.stocks@[5].price == 485_360_000,
            r.stocks@[6].symbol@ == "JPM"@ && r.stocks@[6].price == 178_220_000,
            r.stocks@[7].symbol@ == "XOM"@ && r.stocks@[7].price == 104_260_000,
    {
        let mut stocks: Vec<Instrument> = Vec::new();
        stocks.push(Instrument::seed("AAPL", "Apple Inc.", 182_420_000));
        stocks.push(Instrument::seed("MSFT", "Microsoft", 413_180_000));
        stocks.push(Instrument::seed("NVDA", "NVIDIA", 738_440_000));
        stocks.push(Instrument::seed("TSLA", "Tesla", 196_080_000));
        stocks.push(Instrument::seed("AMZN", "Amazon", 171_520_000));
        stocks.push(Instrument::seed("META", "Meta Platforms", 485_360_000));
        stocks.push(Instrument::seed("JPM", "JPMorgan", 178_220_000));
        stocks.push(Instrument::seed("XOM", "Exxon Mobil", 104_260_000));

        let mut headlines: Vec<String> = Vec::new();
        headlines.push(String::from_str("RATES: CPI cools, traders price first cut in Q3"));
        headlines.push(String::from_str("EARNINGS: Cloud spend accelerates across mega-cap"));
        headlines.push(String::from_str("ENERGY: OPEC+ signals steady supply through summer"));
        headlines.push(String::from_str("FX: USD softer as risk appetite improves"));

        let mut banner: Vec<String> = Vec::new();
        banner.push(String::from_str("MARKET: Futures edge higher ahead of Fed minutes"));
        banner.push(String::from_str("TECH: Semis lead gains as AI capex expands"));
        banner.push(String::from_str("MACRO: Treasury yields slip, curve steepens"));

        let mut explorer_items: Vec<String> = Vec::new();
        explorer_items.push(String::from_str("Stocks"));
        explorer_items.push(String::from_str("Bonds"));
        explorer_items.push(String::from_str("Crypto"));
        explorer_items.push(String::from_str("Commodities"));
        explorer_items.push(String::from_str("FX"));
        explorer_items.push(String::from_str("News"));

        let api_key = String::new();
        App::from_parts(
            stocks,
            headlines,
            banner,
            explorer_items,
            String::from_str("guest"),
            api_key,
            String::from_str("OPEN"),
        )
    }

    /// Moves the selection forward by one, stopping at the last instrument.
    pub fn select_next(&mut self)
        requires
            old(self).wf(),
        ensures
            final(self).wf(),
            final(self).selected == next_index(old(self).selected as int, old(self).stocks@.len() as int),
            same_except_selected(*old(self), *final(self)),
    {
        let last = self.stocks.len().saturating_sub(1);
        self.selected = if self.selected + 1 < last { self.selected + 1 } else { last };
    }

    /// Moves the selection back by one, stopping at the first instrument.
    pub fn select_prev(&mut self)
        requires
            old(self).wf(),
        ensures
            final(self).wf(),
            final(self).selected == prev_index(old(self).selected as int),
            same_except_selected(*old(self), *final(self)),
    {
        if self.selected > 0 {
            self.selected -= 1;
        }
    }

    /// Selects the first instrument.
    pub fn reset_selection(&mut self)
        requires
            old(self).wf(),
        ensures
            final(self).wf(),
            final(self).selected == 0,
            same_except_selected(*old(self), *final(self)),
    {
        self.selected = 0;
    }

    /// Applies one navigation step.
    pub fn apply_move(&mut self, m: SelectionMove)
        requires
            old(self).wf(),
        ensures
            final(self).wf(),
            final(self).selected == apply_move(old(self).selected as int, old(self).stocks@.len() as int, m),
            same_except_selected(*old(self), *final(self)),
    {
        match m {
            SelectionMove::Next => self.select_next(),
            SelectionMove::Prev => self.select_prev(),
            SelectionMove::Reset => self.reset_selection(),
        }
    }

    /// Acts on a key press; returns whether it asks to quit.
    pub fn handle_key(&mut self, k: Key) -> (quit: bool)
        requires
            old(self).wf(),
        ensures
            final(self).wf(),
            quit == (command_of(k) == Command::Quit),
            final(self).selected == (match command_of(k) {
                Command::Move(m) => apply_move(old(self).selected as int, old(self).stocks@.len() as int, m),
                _ => old(self).selected as int,
            }),
            same_except_selected(*old(self), *final(self)),
    {
        match command_for_key(k) {
            Command::Quit => true,
            Command::Move(m) => {
                self.apply_move(m);
                false
            },
            Command::Ignore => false,
        }
    }

    /// The selected instrument.
    pub fn current(&self) -> (r: &Instrument)
        requires
            self.wf(),
            self.stocks@.len() > 0,
        ensures
            r == self.stocks@[self.selected as int],
            r.wf(),
    {
        &self.stocks[self.selected]
    }

    /// The banner lines joined with their gaps, rotated left by the scroll
    /// offset (modulo the text's length), or a fixed notice when empty.
    pub fn banner_text(&self) -> (r: String)
        ensures
            r@ == banner_view(self.banner@, self.banner_offset as nat),
    {
        let mut joined = String::new();
        let mut i: usize = 0;
        while i < self.banner.len()
            invariant
                i <= self.banner@.len(),
                joined@ == joined_banner(self.banner@.subrange(0, i as int)),
            decreases self.banner@.len() - i,
        {
            joined.append(self.banner[i].as_str());
            joined.append("   ");
            proof {
                reveal_strlit("   ");
                let s = self.banner@.subrange(0, i as int + 1);
                assert(s.drop_last() =~= self.banner@.subrange(0, i as int));
                assert("   "@ =~= banner_gap());
            }
            i += 1;
        }
        assert(self.banner@.subrange(0, self.banner@.len() as int) =~= self.banner@);
        let len = joined.as_str().unicode_len();
        if len == 0 {
            proof {
                reveal_strlit("NO HEADLINES");
            }
            let r = String::from_str("NO HEADLINES");
            assert(r@ =~= no_headlines());
            return r;
        }
        let offset = self.banner_offset % len;
        let mut rotated = String::from_str(joined.as_str().substring_char(offset, len));
        rotated.append(joined.as_str().substring_char(0, offset));
        rotated
    }

    /// One simulation tick: advances instrument `i` by `steps[i]` and
    /// `volume_steps[i]`, independently of the others.
    pub fn update_prices_with(&mut self, steps: &Vec<i64>, volume_steps: &Vec<u64>)
        requires
            old(self).wf(),
            steps@.len() == old(self).stocks@.len(),
            volume_steps@.len() == old(self).stocks@.len(),
            forall|i: int| 0 <= i < steps@.len() ==> STEP_MIN <= #[trigger] steps@[i] < STEP_MAX,
        ensures
            final(self).wf(),
            final(self).stocks@.len() == old(self).stocks@.len(),
            forall|i: int|
                0 <= i < final(self).stocks@.len() ==> advanced(
                    #[trigger] old(self).stocks@[i],
                    final(self).stocks@[i],
                    steps@[i] as int,
                    volume_steps@[i] as int,
                ),
            same_except_stocks(*old(self), *final(self)),
    {
        let n = self.stocks.len();
        let mut i: usize = 0;
        while i < n
            invariant
                n == old(self).stocks@.len(),
                n == self.stocks@.len(),
                i <= n,
                steps@.len() == n,
                volume_steps@.len() == n,
                forall|k: int| 0 <= k < steps@.len() ==> STEP_MIN <= #[trigger] steps@[k] < STEP_MAX,
                self.wf(),
                forall|k: int|
                    0 <= k < i ==> advanced(
                        #[trigger] old(self).stocks@[k],
                        self.stocks@[k],
                        steps@[k] as int,
                        volume_steps@[k] as int,
                    ),
                forall|k: int| i <= k < n ==> #[trigger] self.stocks@[k] == old(self).stocks@[k],
                same_except_stocks(*old(self), *self),
            decreases n - i,
        {
            assert(self.stocks@[i as int].wf());
            self.stocks[i].advance(steps[i], volume_steps[i]);
            i += 1;
        }
    }

    /// One simulation tick with freshly drawn price steps and volume increments.
    pub fn update_prices(&mut self)
        requires
            old(self).wf(),
        ensures
            final(self).wf(),
            final(self).stocks@.len() == old(self).stocks@.len(),
            forall|i: int|
                0 <= i < final(self).stocks@.len() ==> #[trigger] drawn_advance(
                    old(self).stocks@[i],
                    final(self).stocks@[i],
                ),
            same_except_stocks(*old(self), *final(self)),
    {
        let n = self.stocks.len();
        let mut steps: Vec<i64> = Vec::new();
        let mut volume_steps: Vec<u64> = Vec::new();
        let mut i: usize = 0;
        while i < n
            invariant
                i <= n,
                steps@.len() == i,
                volume_steps@.len() == i,
                forall|k: int| 0 <= k < i ==> STEP_MIN <= #[trigger] steps@[k] < STEP_MAX,
                forall|k: int|
                    0 <= k < i ==> VOLUME_STEP_MIN <= #[trigger] volume_steps@[k] < VOLUME_STEP_MAX,
            decreases n - i,
        {
            steps.push(random_in(STEP_MIN, STEP_MAX));
            let v = random_in(VOLUME_STEP_MIN, VOLUME_STEP_MAX);
            volume_steps.push(v as u64);
            i += 1;
        }
        self.update_prices_with(&steps, &volume_steps);
        assert forall|i: int| 0 <= i < self.stocks@.len() implies #[trigger] drawn_advance(
            old(self).stocks@[i],
            self.stocks@[i],
        ) by {
            assert(VOLUME_STEP_MIN <= volume_steps@[i] < VOLUME_STEP_MAX);
            assert(advanced(old(self).stocks@[i], self.stocks@[i], steps@[i] as int, volume_steps@[i] as int));
        }
    }

    /// Runs the timed engines whose interval has elapsed: a simulation tick
    /// when `since_price_ms` reaches `PRICE_UPDATE_MS`, a banner step when
    /// `since_banner_ms` reaches `BANNER_TICK_MS`. Returns which of the two ran,
    /// so that the caller restarts those timers.
    pub fn on_elapsed(&mut self, since_price_ms: u64, since_banner_ms: u64) -> (r: (bool, bool))
        requires
            old(self).wf(),
        ensures
            final(self).wf(),
            r.0 == (since_price_ms >= PRICE_UPDATE_MS),
            r.1 == (since_banner_ms >= BANNER_TICK_MS),
            final(self).stocks@.len() == old(self).stocks@.len(),
            r.0 ==> forall|i: int|
                0 <= i < final(self).stocks@.len() ==> #[trigger] drawn_advance(
                    old(self).stocks@[i],
                    final(self).stocks@[i],
                ),
            !r.0 ==> final(self).stocks == old(self).stocks,
            final(self).banner_offset == (if !r.1 || old(self).banner@.len() == 0 {
                old(self).banner_offset as int
            } else if old(self).banner_offset == usize::MAX {
                usize::MAX as int
            } else {
                old(self).banner_offset + 1
            }),
            final(self).selected == old(self).selected,
            final(self).headlines == old(self).headlines,
            final(self).banner == old(self).banner,
            final(self).user == old(self).user,
            final(self).api_key == old(self).api_key,
            final(self).explorer_items == old(self).explorer_items,
            final(self).explorer_selected == old(self).explorer_selected,
            final(self).session == old(self).session,
    {
        let price_due = since_price_ms >= PRICE_UPDATE_MS;
        let banner_due = since_banner_ms >= BANNER_TICK_MS;
        if price_due {
            self.update_prices();
        }
        if banner_due {
            self.advance_banner();
        }
        (price_due, banner_due)
    }

    /// Scrolls the banner by one character (saturating) when it has content.
    pub fn advance_banner(&mut self)
        ensures
            final(self).banner_offset == (if old(self).banner@.len() == 0 {
                old(self).banner_offset as int
            } else if old(self).banner_offset == usize::MAX {
                usize::MAX as int
            } else {
                old(self).banner_offset + 1
            }),
            same_except_banner_offset(*old(self), *final(self)),
    {
        if self.banner.len() > 0 {
            self.banner_offset = self.banner_offset.saturating_add(1);
        }
    }
}

/// Every sequence of navigation steps, from any index in range, stays in range.
pub proof fn lemma_moves_stay_in_range(selected: int, count: int, moves: Seq<SelectionMove>)
    requires
        count >= 0,
        index_in_range(selected, count),
    ensures
        index_in_range(apply_moves(selected, count, moves), count),
    decreases moves.len(),
{
    if moves.len() > 0 {
        lemma_moves_stay_in_range(selected, count, moves.drop_last());
    }
}

/// Moving back from the first entry, or forward from the last, changes nothing.
pub proof fn lemma_moves_at_ends(count: int)
    requires
        count > 0,
    ensures
        prev_index(0) == 0,
        next_index(count - 1, count) == count - 1,
{
}

/// The banner text has the same length at every offset, and advancing the
/// offset by the text's full length shows the same rotation again.
pub proof fn lemma_banner_rotation(lines: Seq<String>, offset: nat)
    ensures
        banner_view(lines, offset).len() == banner_view(lines, 0).len(),
        banner_view(lines, offset + joined_banner(lines).len()) == banner_view(lines, offset),
{
    let j = joined_banner(lines);
    if j.len() > 0 {
        vstd::arithmetic::div_mod::lemma_mod_add_multiples_vanish(offset as int, j.len() as int);
    }
}

} // verus!
