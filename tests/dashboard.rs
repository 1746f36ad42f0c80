use market_dash::history::PriceHistory;
use market_dash::instrument::{Instrument, PRICE_FLOOR, STEP_MAX, STEP_MIN};
use market_dash::layout::{fit_parts, split, Constraint, Direction, Rect};
use market_dash::panels::{
    gauge_ratio, market_status, normalize_history, quote_view, render, top_headlines, watch_rows,
};
use market_dash::text::{fixed2, price_string, signed_string};
use market_dash::market::{poll_timeout_ms, BANNER_TICK_MS, PRICE_UPDATE_MS};
use market_dash::panels::percent_string;
use market_dash::{command_for_key, App, Command, Key, SelectionMove, HISTORY_LEN};

fn strings(v: &[&str]) -> Vec<String> {
    v.iter().map(|s| s.to_string()).collect()
}

fn flat_noise() -> Vec<i64> {
    vec![0; HISTORY_LEN]
}

fn app_with(n: usize, banner: &[&str]) -> App {
    let stocks = (0..n)
        .map(|i| Instrument::seed_with("SYM", "Name", 100_000_000 + i as i64 * 1_000_000, &flat_noise()))
        .collect();
    App::from_parts(
        stocks,
        strings(&["h1", "h2", "h3", "h4", "h5"]),
        strings(banner),
        strings(&["Stocks", "Bonds"]),
        "guest".to_string(),
        String::new(),
        "OPEN".to_string(),
    )
}

fn check_invariants(s: &Instrument) {
    assert!(s.price >= PRICE_FLOOR);
    assert!(s.day_range_low <= s.price && s.price <= s.day_range_high);
    assert!(s.history.len() <= HISTORY_LEN);
    assert_eq!(s.change, s.price - s.prev_close);
    let expected = (s.change as i128 * 100_000_000 / s.prev_close as i128) as i64;
    assert_eq!(s.change_pct, expected);
}

#[test]
fn seed_at_one_hundred() {
    let s = Instrument::seed("TEST", "Test Co", 100_000_000);
    assert_eq!(s.prev_close, 99_500_000);
    assert_eq!(s.open, 99_000_000);
    assert_eq!(s.day_range_low, 98_000_000);
    assert_eq!(s.day_range_high, 102_000_000);
    assert_eq!(s.change, 500_000);
    assert_eq!(s.change_pct, 502_512);
    assert_eq!(s.volume, 2_500_000);
    assert_eq!(s.vwap, 99_500_000);
    assert_eq!(s.history.len(), HISTORY_LEN);
    assert_eq!(s.symbol, "TEST");
    assert_eq!(s.name, "Test Co");
    let q = quote_view(&s);
    assert_eq!(q.change_pct, "+0.50%");
    assert_eq!(q.change, "+0.50");
    assert_eq!(q.volume, "2.50M");
}

#[test]
fn seed_walk_is_multiplicative() {
    let mut noise = vec![0; HISTORY_LEN];
    noise[0] = 10;
    noise[1] = -15;
    let s = Instrument::seed_with("A", "B", 100_000_000, &noise);
    let h = s.history.to_vec();
    assert_eq!(h[0], 100_100_000);
    assert_eq!(h[1], 99_949_850);
    assert_eq!(h[2], 99_949_850);
}

#[test]
fn seeded_history_stays_near_price() {
    let s = Instrument::seed("A", "B", 100_000_000);
    for v in s.history.to_vec() {
        assert!(v > 85_000_000 && v < 115_000_000);
    }
}

#[test]
fn advances_keep_invariants() {
    let mut s = Instrument::seed_with("A", "B", 1_500_000, &flat_noise());
    for k in 0..201 {
        let step = if k % 3 == 0 { STEP_MAX - 1 } else { STEP_MIN };
        s.advance(step, 20_000);
        check_invariants(&s);
    }
    assert_eq!(s.price, PRICE_FLOOR);
    assert_eq!(s.volume, 2_500_000 + 201 * 20_000);
}

#[test]
fn advance_updates_every_field() {
    let mut s = Instrument::seed_with("A", "B", 100_000_000, &flat_noise());
    s.advance(-800_000, 50_000);
    assert_eq!(s.price, 99_200_000);
    assert_eq!(s.change, -300_000);
    assert_eq!(s.change_pct, -301_507);
    assert_eq!(s.volume, 2_550_000);
    assert_eq!(s.vwap, (99_500_000 + 99_200_000) / 2);
    assert_eq!(s.day_range_low, 98_000_000);
    assert_eq!(s.day_range_high, 102_000_000);
    assert_eq!(*s.history.to_vec().last().unwrap(), 99_200_000);
    s.advance(5_000_000, 0);
    assert_eq!(s.day_range_high, 104_200_000);
    s.advance(-10_000_000, 0);
    assert_eq!(s.day_range_low, 94_200_000);
    assert_eq!(signed_string(s.change), "-5.30");
}

#[test]
fn random_updates_stay_in_draw_range() {
    let mut app = app_with(4, &["x"]);
    for _ in 0..50 {
        let before: Vec<(i64, u64)> = app.stocks.iter().map(|s| (s.price, s.volume)).collect();
        app.update_prices();
        for (s, (p, v)) in app.stocks.iter().zip(before) {
            check_invariants(s);
            assert!(s.price - p >= STEP_MIN && s.price - p < STEP_MAX);
            assert!(s.volume - v >= 20_000 && s.volume - v < 180_000);
        }
    }
}

#[test]
fn update_prices_with_given_draws() {
    let mut app = app_with(2, &["x"]);
    app.update_prices_with(&vec![100_000, -200_000], &vec![1, 2]);
    assert_eq!(app.stocks[0].price, 100_100_000);
    assert_eq!(app.stocks[1].price, 100_800_000);
    assert_eq!(app.stocks[1].volume, 2_500_002);
}

#[test]
fn history_keeps_most_recent() {
    let mut h = PriceHistory::new();
    for v in 0..100i64 {
        h.push(v);
    }
    assert_eq!(h.len(), HISTORY_LEN);
    let expected: Vec<i64> = (36..100).collect();
    assert_eq!(h.to_vec(), expected);
}

#[test]
fn history_below_capacity_keeps_all() {
    let mut h = PriceHistory::new();
    for v in 0..10i64 {
        h.push(v);
    }
    assert_eq!(h.to_vec(), (0..10).collect::<Vec<i64>>());
    assert_eq!(h.get(3), 3);
}

#[test]
fn selection_stays_in_range() {
    let mut app = app_with(3, &["x"]);
    for _ in 0..5 {
        app.select_next();
    }
    assert_eq!(app.selected, 2);
    app.select_next();
    assert_eq!(app.selected, 2);
    app.select_prev();
    assert_eq!(app.selected, 1);
    app.reset_selection();
    assert_eq!(app.selected, 0);
    app.select_prev();
    assert_eq!(app.selected, 0);
    app.apply_move(SelectionMove::Next);
    assert_eq!(app.selected, 1);
    assert_eq!(app.current().price, 101_000_000);
}

#[test]
fn selection_on_empty_watchlist() {
    let mut app = app_with(0, &["x"]);
    app.select_next();
    assert_eq!(app.selected, 0);
    app.select_prev();
    assert_eq!(app.selected, 0);
}

#[test]
fn ten_prev_from_start_stays_at_zero() {
    let mut app = app_with(8, &["x"]);
    assert_eq!(app.selected, 0);
    for _ in 0..10 {
        app.select_prev();
    }
    assert_eq!(app.selected, 0);
}

#[test]
fn banner_length_constant() {
    let mut app = app_with(1, &["A", "B"]);
    assert_eq!(app.banner_text(), "A   B   ");
    let len = app.banner_text().chars().count();
    for _ in 0..50 {
        app.advance_banner();
        assert_eq!(app.banner_text().chars().count(), len);
    }
    assert_eq!(app.banner_offset, 50);
}

#[test]
fn banner_rotates_and_repeats() {
    let mut app = app_with(1, &["A", "B"]);
    app.advance_banner();
    assert_eq!(app.banner_text(), "   B   A");
    let first = app.banner_text();
    for _ in 0..8 {
        app.advance_banner();
    }
    assert_eq!(app.banner_text(), first);
}

#[test]
fn empty_banner_shows_notice() {
    let mut app = app_with(1, &[]);
    assert_eq!(app.banner_text(), "NO HEADLINES");
    app.advance_banner();
    assert_eq!(app.banner_offset, 0);
}

#[test]
fn banner_offset_saturates() {
    let mut app = app_with(1, &["A"]);
    app.banner_offset = usize::MAX;
    app.advance_banner();
    assert_eq!(app.banner_offset, usize::MAX);
}

#[test]
fn gauge_ratio_bounds() {
    assert_eq!(gauge_ratio(5, 5, 5), 0);
    assert_eq!(gauge_ratio(7, 9, 5), 0);
    assert_eq!(gauge_ratio(150, 100, 200), 500_000);
    assert_eq!(gauge_ratio(50, 100, 200), 0);
    assert_eq!(gauge_ratio(250, 100, 200), 1_000_000);
    assert_eq!(gauge_ratio(200, 100, 200), 1_000_000);
}

#[test]
fn normalize_flat_and_empty() {
    assert_eq!(normalize_history(&vec![]), vec![0]);
    assert_eq!(normalize_history(&vec![7_000_000; 5]), vec![1; 5]);
    assert_eq!(normalize_history(&vec![1_000_000, 1_000_050]), vec![1, 1]);
}

#[test]
fn normalize_scales_to_range() {
    assert_eq!(normalize_history(&vec![1_000_000, 2_000_000, 1_500_000]), vec![1, 101, 51]);
    assert_eq!(normalize_history(&vec![3_000_000, 1_000_000]), vec![101, 1]);
}

#[test]
fn fixed_point_text() {
    assert_eq!(price_string(182_420_000), "182.42");
    assert_eq!(price_string(0), "0.00");
    assert_eq!(price_string(1_234_567_000), "1234.57");
    assert_eq!(price_string(-1_505_000), "-1.51");
    assert_eq!(signed_string(500_000), "+0.50");
    assert_eq!(signed_string(0), "+0.00");
    assert_eq!(signed_string(-20_000), "-0.02");
    assert_eq!(fixed2(2_500_000, false, false), "2.50");
}

#[test]
fn key_bindings() {
    assert_eq!(command_for_key(Key::Char('q')), Command::Quit);
    assert_eq!(command_for_key(Key::Char('j')), Command::Move(SelectionMove::Next));
    assert_eq!(command_for_key(Key::Down), Command::Move(SelectionMove::Next));
    assert_eq!(command_for_key(Key::Char('k')), Command::Move(SelectionMove::Prev));
    assert_eq!(command_for_key(Key::Up), Command::Move(SelectionMove::Prev));
    assert_eq!(command_for_key(Key::Char('r')), Command::Move(SelectionMove::Reset));
    assert_eq!(command_for_key(Key::Char('x')), Command::Ignore);
    assert_eq!(command_for_key(Key::Other), Command::Ignore);
    let mut app = app_with(3, &["x"]);
    assert!(!app.handle_key(Key::Char('j')));
    assert_eq!(app.selected, 1);
    assert!(app.handle_key(Key::Char('q')));
}

fn overlaps(a: &Rect, b: &Rect) -> bool {
    let ax = a.x as u32;
    let bx = b.x as u32;
    let ay = a.y as u32;
    let by = b.y as u32;
    ax < bx + b.width as u32 && bx < ax + a.width as u32 && ay < by + b.height as u32 && by < ay + a.height as u32
}

#[test]
fn split_follows_constraints() {
    let area = Rect { x: 2, y: 2, width: 10, height: 10 };
    let r = split(area, Direction::Vertical, &vec![Constraint::Length(5), Constraint::Min(0)]);
    assert_eq!(r, vec![Rect { x: 2, y: 2, width: 10, height: 5 }, Rect { x: 2, y: 7, width: 10, height: 5 }]);
    let r = split(
        Rect { x: 0, y: 0, width: 100, height: 4 },
        Direction::Horizontal,
        &vec![Constraint::Percentage(70), Constraint::Percentage(30)],
    );
    assert_eq!(r, vec![Rect { x: 0, y: 0, width: 70, height: 4 }, Rect { x: 70, y: 0, width: 30, height: 4 }]);
}

#[test]
fn screen_partition() {
    for (w, h) in [(120u16, 40u16), (80, 24), (20, 5), (0, 0), (3, 60)] {
        let area = Rect { x: 0, y: 0, width: w, height: h };
        let app = app_with(3, &["x"]);
        let screen = render(&app, area);
        let p = screen.panels;
        let leaves = [p.header, p.banner, p.user, p.watchlist, p.quote, p.gauge, p.chart, p.news, p.sidebar, p.footer];
        for (i, a) in leaves.iter().enumerate() {
            assert!(a.x as u32 + a.width as u32 <= w as u32);
            assert!(a.y as u32 + a.height as u32 <= h as u32);
            for b in leaves.iter().skip(i + 1) {
                assert!(!overlaps(a, b));
            }
        }
    }
    let screen = render(&app_with(3, &["x"]), Rect { x: 0, y: 0, width: 120, height: 40 });
    assert_eq!(screen.panels.header, Rect { x: 0, y: 0, width: 120, height: 3 });
    assert_eq!(screen.panels.footer, Rect { x: 0, y: 39, width: 120, height: 1 });
}

#[test]
fn screen_contents() {
    let mut app = app_with(3, &["A", "B"]);
    app.select_next();
    let screen = render(&app, Rect { x: 0, y: 0, width: 120, height: 40 });
    assert_eq!(screen.session_line, "SESSION OPEN  |  SYMBOLS 3");
    assert_eq!(screen.banner_line, " A   B    ");
    assert_eq!(screen.api_key, "<not set>");
    assert_eq!(screen.rows.len(), 3);
    assert!(screen.rows[1].selected && !screen.rows[0].selected);
    assert_eq!(screen.rows[1].last, "101.00");
    assert!(screen.rows[1].gain);
    assert_eq!(screen.quote.as_ref().unwrap().gauge_label, "101.00  |  98.98 - 103.02");
    assert_eq!(screen.chart.len(), HISTORY_LEN);
    assert_eq!(screen.news, strings(&["h1", "h2", "h3"]));
    assert_eq!(screen.footer_line, format!("VIM KEYS: q quit  j/k move  r reset  |  {}", market_status()));
    let rows = watch_rows(&app);
    assert_eq!(rows[0].change_pct, "+0.50%");
    assert_eq!(top_headlines(&app).len(), 3);
    assert_eq!(screen.explorer.len(), 2);
    assert!(screen.explorer[0].focused && !screen.explorer[1].focused);
    assert_eq!(screen.explorer[1].label, "Bonds");
}

#[test]
fn losses_are_marked() {
    let mut app = app_with(1, &["x"]);
    app.update_prices_with(&vec![-800_000], &vec![0]);
    let rows = watch_rows(&app);
    assert!(!rows[0].gain);
    assert_eq!(rows[0].change, "-0.30");
}

#[test]
fn fixed_dashboard_state() {
    let app = App::new();
    assert_eq!(app.stocks.len(), 8);
    assert_eq!(app.stocks[0].symbol, "AAPL");
    assert_eq!(app.stocks[0].price, 182_420_000);
    assert_eq!(app.headlines.len(), 4);
    assert_eq!(app.explorer_items.len(), 6);
    assert_eq!(app.user, "guest");
    assert!(app.api_key.is_empty());
    assert_eq!(app.session, "OPEN");
    let screen = render(&app, Rect { x: 0, y: 0, width: 100, height: 30 });
    assert_eq!(screen.quote.unwrap().symbol, "AAPL");
}

#[test]
fn timers_fire_when_due() {
    let mut app = app_with(2, &["A"]);
    let before: Vec<i64> = app.stocks.iter().map(|s| s.history.len() as i64).collect();
    assert_eq!(app.on_elapsed(PRICE_UPDATE_MS - 1, BANNER_TICK_MS - 1), (false, false));
    assert_eq!(app.banner_offset, 0);
    assert_eq!(app.stocks[0].volume, 2_500_000);
    assert_eq!(app.on_elapsed(PRICE_UPDATE_MS, 0), (true, false));
    assert!(app.stocks[0].volume >= 2_520_000);
    assert_eq!(app.stocks[0].history.len() as i64, before[0]);
    assert_eq!(app.on_elapsed(0, BANNER_TICK_MS + 5), (false, true));
    assert_eq!(app.banner_offset, 1);
}

#[test]
fn poll_timeout_counts_down() {
    assert_eq!(poll_timeout_ms(0), 250);
    assert_eq!(poll_timeout_ms(100), 150);
    assert_eq!(poll_timeout_ms(250), 0);
    assert_eq!(poll_timeout_ms(1_000), 0);
}

#[test]
fn percent_text_has_suffix() {
    assert_eq!(percent_string(-301_507), "-0.30%");
    assert_eq!(percent_string(0), "+0.00%");
}

#[test]
fn fitting_clamps_and_orders() {
    let area = Rect { x: 10, y: 0, width: 20, height: 4 };
    let parts = vec![
        Rect { x: 5, y: 9, width: 10, height: 1 },
        Rect { x: 12, y: 0, width: 30, height: 4 },
        Rect { x: 40, y: 0, width: 3, height: 4 },
    ];
    let r = fit_parts(area, Direction::Horizontal, &parts);
    assert_eq!(
        r,
        vec![
            Rect { x: 10, y: 0, width: 5, height: 4 },
            Rect { x: 15, y: 0, width: 15, height: 4 },
            Rect { x: 30, y: 0, width: 0, height: 4 },
        ]
    );
}
