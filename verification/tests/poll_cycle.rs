use restock_monitor::monitor::{Action, Event, Failure, Monitor, Phase};
use restock_monitor::shopify::{LinkError, Product, ProductResponse, ProductVariant, ShopifyClient};
use restock_monitor::utils::{AlertError, ScheduleError, Scheduler};

const NOW: i64 = 1_700_000_000_000;

fn product(id: i64, available: bool) -> Product {
    Product {
        id,
        title: format!("Item {}", id),
        handle: format!("item-{}", id),
        variants: vec![ProductVariant {
            id: id * 100,
            title: String::from("Default"),
            option1: None,
            option2: None,
            option3: None,
            available,
            price: String::from("1.00"),
        }],
        images: vec![],
    }
}

fn catalog(stock: &[(i64, bool)]) -> ProductResponse {
    ProductResponse::new(stock.iter().map(|(id, a)| product(*id, *a)).collect())
}

fn monitor(subscribed: Vec<i64>) -> Monitor {
    Monitor::new(
        ShopifyClient::new(String::from("https://shop.example.com")),
        subscribed,
        Scheduler::hourly(),
    )
}

fn notified_title(action: &Action) -> String {
    match action {
        Action::Notify(webhook) => webhook.embeds()[0].title().clone(),
        other => panic!("expected an alert, got {:?}", other),
    }
}

/// Runs one whole cycle on `stock` and returns the titles alerted on; the
/// machine sleeps afterwards.
fn run_cycle(monitor: &mut Monitor, first: Event, stock: &[(i64, bool)]) -> Vec<String> {
    match monitor.step_with(first, NOW, None) {
        Action::Fetch(url) => assert_eq!(url, "https://shop.example.com/products.json"),
        other => panic!("expected a fetch, got {:?}", other),
    }
    assert_eq!(monitor.phase(), Phase::Fetching);
    let mut titles = Vec::new();
    let mut action = monitor.step_with(Event::Fetched(catalog(stock)), NOW, Some(NOW + 5_000));
    loop {
        match action {
            Action::Notify(_) => {
                assert_eq!(monitor.phase(), Phase::Notifying);
                titles.push(notified_title(&action));
                action = monitor.step_with(Event::Notified, NOW, Some(NOW + 5_000));
            }
            Action::Sleep(ms) => {
                assert_eq!(ms, 5_000);
                assert_eq!(monitor.phase(), Phase::Sleeping);
                return titles;
            }
            other => panic!("unexpected action {:?}", other),
        }
    }
}

#[test]
fn two_cycles_alert_on_what_became_available() {
    let mut m = monitor(vec![1, 2, 3]);
    let first = run_cycle(&mut m, Event::Start, &[(1, true), (2, false), (3, true)]);
    assert_eq!(first, vec!["Item 1", "Item 3"]);
    let second = run_cycle(&mut m, Event::Woke, &[(1, true), (2, true), (3, false)]);
    assert_eq!(second, vec!["Item 2"]);
}

#[test]
fn only_subscribed_products_are_alerted_on() {
    let mut m = monitor(vec![2, 4]);
    let titles = run_cycle(&mut m, Event::Start, &[(1, true), (2, true), (3, true)]);
    assert_eq!(titles, vec!["Item 2"]);
}

#[test]
fn alerts_follow_the_order_of_the_subscription() {
    let mut m = monitor(vec![3, 1, 2]);
    let titles = run_cycle(&mut m, Event::Start, &[(1, true), (2, true), (3, true)]);
    assert_eq!(titles, vec!["Item 3", "Item 1", "Item 2"]);
}

#[test]
fn subscription_that_repeats_an_identifier_alerts_once() {
    let mut m = monitor(vec![2, 1, 2, 2]);
    let titles = run_cycle(&mut m, Event::Start, &[(1, true), (2, true)]);
    assert_eq!(titles, vec!["Item 2", "Item 1"]);
}

#[test]
fn tally_counts_what_the_next_step_will_find() {
    let mut m = monitor(vec![1]);
    assert_eq!(m.tally(&catalog(&[(1, true), (2, false), (3, true)])), (2, 2));
    run_cycle(&mut m, Event::Start, &[(1, true), (2, false), (3, true)]);
    assert_eq!(m.tally(&catalog(&[(1, true), (2, true), (3, false)])), (2, 1));
    assert_eq!(m.tally(&catalog(&[])), (0, 0));
}

#[test]
fn cycle_without_news_goes_straight_to_sleep() {
    let mut m = monitor(vec![1]);
    assert_eq!(run_cycle(&mut m, Event::Start, &[(1, true)]), vec!["Item 1"]);
    assert!(run_cycle(&mut m, Event::Woke, &[(1, true)]).is_empty());
}

#[test]
fn unsubscribed_product_is_not_alerted_on_later_either() {
    let mut m = monitor(vec![1]);
    assert!(run_cycle(&mut m, Event::Start, &[(9, true)]).is_empty());
    assert!(run_cycle(&mut m, Event::Woke, &[(9, true)]).is_empty());
}

#[test]
fn new_monitor_is_idle() {
    let m = monitor(vec![]);
    assert_eq!(m.phase(), Phase::Idle);
    assert!(!m.is_final());
}

#[test]
fn fetch_failure_ends_the_machine() {
    let mut m = monitor(vec![1]);
    m.step_with(Event::Start, NOW, None);
    match m.step_with(Event::FetchFailed, NOW, None) {
        Action::Fail(Failure::Fetch) => {}
        other => panic!("unexpected action {:?}", other),
    }
    assert_eq!(m.phase(), Phase::FailedExit);
    assert!(m.is_final());
}

#[test]
fn notify_failure_abandons_the_rest_of_the_batch() {
    let mut m = monitor(vec![1, 2]);
    m.step_with(Event::Start, NOW, None);
    let action = m.step_with(Event::Fetched(catalog(&[(1, true), (2, true)])), NOW, None);
    assert_eq!(notified_title(&action), "Item 1");
    match m.step_with(Event::NotifyFailed, NOW, None) {
        Action::Fail(Failure::Notify) => {}
        other => panic!("unexpected action {:?}", other),
    }
    assert_eq!(m.phase(), Phase::FailedExit);
    match m.step_with(Event::Notified, NOW, Some(NOW + 1)) {
        Action::Wait => {}
        other => panic!("unexpected action {:?}", other),
    }
    assert_eq!(m.phase(), Phase::FailedExit);
}

#[test]
fn store_address_that_is_no_url_fails_at_the_first_fetch() {
    let mut m = Monitor::new(ShopifyClient::new(String::from("nowhere")), vec![1], Scheduler::hourly());
    match m.step_with(Event::Start, NOW, None) {
        Action::Fail(Failure::CatalogUrl(LinkError::InvalidUrl)) => {}
        other => panic!("unexpected action {:?}", other),
    }
    assert_eq!(m.phase(), Phase::FailedExit);
}

#[test]
fn product_without_variants_cannot_be_alerted_on() {
    let mut m = monitor(vec![1, 2]);
    m.step_with(Event::Start, NOW, None);
    let mut odd = product(2, true);
    odd.variants.clear();
    // A product without variants is never available, so it never reaches
    // the alerts; the cycle alerts on the other one only.
    let response = ProductResponse::new(vec![product(1, true), odd]);
    let action = m.step_with(Event::Fetched(response), NOW, Some(NOW + 10));
    assert_eq!(notified_title(&action), "Item 1");
    match m.step_with(Event::Notified, NOW, Some(NOW + 10)) {
        Action::Sleep(10) => {}
        other => panic!("unexpected action {:?}", other),
    }
}

#[test]
fn overlong_handle_fails_the_alert() {
    let mut m = monitor(vec![1]);
    m.step_with(Event::Start, NOW, None);
    let mut long = product(1, true);
    long.handle = "h".repeat(0x800_0000);
    match m.step_with(Event::Fetched(ProductResponse::new(vec![long])), NOW, Some(NOW + 10)) {
        Action::Fail(Failure::Alert(AlertError::Link(LinkError::TooLong))) => {}
        other => panic!("unexpected action {:?}", other),
    }
    assert_eq!(m.phase(), Phase::FailedExit);
}

#[test]
fn missing_occurrence_fails_the_cycle() {
    let mut m = monitor(vec![1]);
    m.step_with(Event::Start, NOW, None);
    match m.step_with(Event::Fetched(catalog(&[])), NOW, None) {
        Action::Fail(Failure::Schedule(ScheduleError::Undefined)) => {}
        other => panic!("unexpected action {:?}", other),
    }
    assert_eq!(m.phase(), Phase::FailedExit);
}

#[test]
fn occurrence_in_the_past_fails_the_cycle() {
    let mut m = monitor(vec![1]);
    m.step_with(Event::Start, NOW, None);
    match m.step_with(Event::Fetched(catalog(&[])), NOW, Some(NOW - 1)) {
        Action::Fail(Failure::Schedule(ScheduleError::Negative)) => {}
        other => panic!("unexpected action {:?}", other),
    }
}

#[test]
fn instant_off_the_calendar_fails_the_cycle() {
    let mut m = monitor(vec![1]);
    m.step_with(Event::Start, NOW, None);
    match m.step_with(Event::Fetched(catalog(&[])), i64::MAX, Some(i64::MAX)) {
        Action::Fail(Failure::Schedule(ScheduleError::Undefined)) => {}
        other => panic!("unexpected action {:?}", other),
    }
}

#[test]
fn shutdown_while_idle_stops_at_once() {
    let mut m = monitor(vec![1]);
    match m.step_with(Event::Shutdown, NOW, None) {
        Action::Stop => {}
        other => panic!("unexpected action {:?}", other),
    }
    assert_eq!(m.phase(), Phase::ShutdownComplete);
    assert!(m.is_final());
    match m.step_with(Event::Start, NOW, None) {
        Action::Wait => {}
        other => panic!("unexpected action {:?}", other),
    }
    assert_eq!(m.phase(), Phase::ShutdownComplete);
}

#[test]
fn shutdown_during_sleep_stops_at_once() {
    let mut m = monitor(vec![1]);
    run_cycle(&mut m, Event::Start, &[(1, true)]);
    match m.step_with(Event::Shutdown, NOW, None) {
        Action::Stop => {}
        other => panic!("unexpected action {:?}", other),
    }
    assert_eq!(m.phase(), Phase::ShutdownComplete);
}

#[test]
fn shutdown_during_fetch_lets_the_cycle_finish() {
    let mut m = monitor(vec![1, 2]);
    m.step_with(Event::Start, NOW, None);
    match m.step_with(Event::Shutdown, NOW, None) {
        Action::Wait => {}
        other => panic!("unexpected action {:?}", other),
    }
    assert_eq!(m.phase(), Phase::Fetching);
    let action =
        m.step_with(Event::Fetched(catalog(&[(1, true), (2, true)])), NOW, Some(NOW + 1));
    assert_eq!(notified_title(&action), "Item 1");
    let action = m.step_with(Event::Notified, NOW, Some(NOW + 1));
    assert_eq!(notified_title(&action), "Item 2");
    match m.step_with(Event::Notified, NOW, Some(NOW + 1)) {
        Action::Stop => {}
        other => panic!("unexpected action {:?}", other),
    }
    assert_eq!(m.phase(), Phase::ShutdownComplete);
}

#[test]
fn shutdown_during_notify_does_not_abort_it() {
    let mut m = monitor(vec![1]);
    m.step_with(Event::Start, NOW, None);
    m.step_with(Event::Fetched(catalog(&[(1, true)])), NOW, None);
    match m.step_with(Event::Shutdown, NOW, None) {
        Action::Wait => {}
        other => panic!("unexpected action {:?}", other),
    }
    assert_eq!(m.phase(), Phase::Notifying);
    match m.step_with(Event::Notified, NOW, None) {
        Action::Stop => {}
        other => panic!("unexpected action {:?}", other),
    }
}

#[test]
fn event_that_answers_nothing_is_ignored() {
    let mut m = monitor(vec![1]);
    for event in [Event::Notified, Event::Woke, Event::FetchFailed, Event::NotifyFailed] {
        match m.step_with(event, NOW, Some(NOW + 1)) {
            Action::Wait => {}
            other => panic!("unexpected action {:?}", other),
        }
        assert_eq!(m.phase(), Phase::Idle);
    }
    m.step_with(Event::Start, NOW, None);
    for event in [Event::Start, Event::Notified, Event::Woke, Event::NotifyFailed] {
        match m.step_with(event, NOW, Some(NOW + 1)) {
            Action::Wait => {}
            other => panic!("unexpected action {:?}", other),
        }
        assert_eq!(m.phase(), Phase::Fetching);
    }
}

#[test]
fn step_asks_the_schedule_for_the_wait() {
    let mut m = monitor(vec![1]);
    match m.step(Event::Start, NOW) {
        Action::Fetch(url) => assert_eq!(url, "https://shop.example.com/products.json"),
        other => panic!("unexpected action {:?}", other),
    }
    let action = m.step(Event::Fetched(catalog(&[(1, true)])), NOW);
    assert_eq!(notified_title(&action), "Item 1");
    match m.step(Event::Notified, NOW) {
        Action::Sleep(ms) => {
            assert!(ms > 0);
            assert!(ms <= 3_600_000);
        }
        other => panic!("unexpected action {:?}", other),
    }
    assert_eq!(m.phase(), Phase::Sleeping);
    match m.step(Event::Woke, NOW + 3_600_000) {
        Action::Fetch(_) => {}
        other => panic!("unexpected action {:?}", other),
    }
}
