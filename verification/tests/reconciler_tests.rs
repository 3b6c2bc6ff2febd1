use open_share::cli::exit_code;
use open_share::establisher::ConnectionOutcome;
use open_share::enumerator::PageScan;
use open_share::reconciler::{
    pending_action, phase_after_page, Action, Event, Phase, Reconciler, ShareRequest,
};
use open_share::record::AddressWidth;

const ORIGIN: u64 = 0x0000_0200_0000_0000;

/// A host that answers from a script and notes what it was asked.
struct Host {
    open_status: u32,
    pages: Vec<(u32, Vec<&'static str>)>,
    connect_status: u32,
    launch_value: usize,
    fetched: usize,
    asked: Vec<Action>,
}

fn host(pages: Vec<(u32, Vec<&'static str>)>) -> Host {
    Host { open_status: 0, pages, connect_status: 0, launch_value: 42, fetched: 0, asked: Vec::new() }
}

fn page_of(names: &[&str]) -> Vec<u8> {
    let mut page = vec![0u8; 48 * names.len()];
    for (index, name) in names.iter().enumerate() {
        let address = ORIGIN + page.len() as u64;
        page[48 * index + 24..48 * index + 32].copy_from_slice(&address.to_le_bytes());
        for unit in name.encode_utf16() {
            page.extend_from_slice(&unit.to_le_bytes());
        }
        page.extend_from_slice(&[0, 0]);
    }
    page
}

fn request(path: &str, username: &str) -> ShareRequest {
    ShareRequest { path: String::from(path), username: String::from(username) }
}

fn answer(host: &mut Host, action: Action) -> Event {
    match action {
        Action::OpenEnumeration => Event::Opened { status: host.open_status },
        Action::FetchPage => {
            let at = host.fetched;
            host.fetched += 1;
            match host.pages.get(at) {
                Some((status, names)) => Event::Page {
                    status: *status,
                    count: names.len() as u32,
                    origin: ORIGIN,
                    bytes: page_of(names),
                },
                None => Event::Page { status: 259, count: 0, origin: ORIGIN, bytes: Vec::new() },
            }
        }
        Action::CloseEnumeration => Event::Closed { status: 0 },
        Action::Connect => Event::ConnectReturned { status: host.connect_status },
        Action::Launch => Event::LaunchReturned { value: host.launch_value },
        Action::Finish { .. } => unreachable!(),
    }
}

fn run(host: &mut Host, path: &str, username: &str) -> (bool, Phase) {
    let mut machine = Reconciler::new(request(path, username), AddressWidth::Bits64);
    let mut action = machine.pending();
    loop {
        host.asked.push(action);
        if let Action::Finish { success } = action {
            return (success, machine.phase());
        }
        let event = answer(host, action);
        action = machine.step(event);
    }
}

fn count(host: &Host, action: Action) -> usize {
    host.asked.iter().filter(|asked| **asked == action).count()
}

#[test]
fn a_share_that_is_mounted_is_only_launched() {
    let mut table = host(vec![(0, vec!["\\\\SRV\\Docs"])]);
    let (success, phase) = run(&mut table, "\\\\srv\\docs", "alice");
    assert!(success);
    assert_eq!(exit_code(success), 0);
    assert_eq!(phase, Phase::Done { outcome: ConnectionOutcome::AlreadyConnected });
    assert_eq!(
        table.asked,
        vec![
            Action::OpenEnumeration,
            Action::FetchPage,
            Action::CloseEnumeration,
            Action::Launch,
            Action::Finish { success: true },
        ]
    );
    assert_eq!(count(&table, Action::Connect), 0);
    assert_eq!(count(&table, Action::Launch), 1);
}

#[test]
fn a_share_that_is_not_mounted_is_connected_then_launched() {
    let mut table = host(vec![]);
    let (success, phase) = run(&mut table, "\\\\srv\\new", "bob");
    assert!(success);
    assert_eq!(exit_code(success), 0);
    assert_eq!(phase, Phase::Done { outcome: ConnectionOutcome::Connected });
    assert_eq!(
        table.asked,
        vec![
            Action::OpenEnumeration,
            Action::FetchPage,
            Action::CloseEnumeration,
            Action::Connect,
            Action::Launch,
            Action::Finish { success: true },
        ]
    );
}

#[test]
fn a_failed_connect_is_not_launched() {
    let mut table = host(vec![]);
    table.connect_status = 1223;
    let (success, phase) = run(&mut table, "\\\\srv\\new", "bob");
    assert!(!success);
    assert_eq!(exit_code(success), 1);
    assert_eq!(phase, Phase::Failed { outcome: ConnectionOutcome::ConnectFailed });
    assert_eq!(count(&table, Action::Connect), 1);
    assert_eq!(count(&table, Action::Launch), 0);
    assert_eq!(table.asked.last(), Some(&Action::Finish { success: false }));
}

#[test]
fn a_failed_launch_fails_the_run() {
    let mut table = host(vec![]);
    table.launch_value = 2;
    let (success, phase) = run(&mut table, "\\\\srv\\new", "bob");
    assert!(!success);
    assert_eq!(exit_code(success), 1);
    assert_eq!(phase, Phase::Failed { outcome: ConnectionOutcome::Connected });
    assert_eq!(count(&table, Action::Connect), 1);
    assert_eq!(count(&table, Action::Launch), 1);
}

#[test]
fn a_launch_at_the_limit_fails_and_above_it_succeeds() {
    let mut table = host(vec![(0, vec!["\\\\srv\\docs"])]);
    table.launch_value = 32;
    let (success, phase) = run(&mut table, "\\\\srv\\docs", "alice");
    assert!(!success);
    assert_eq!(phase, Phase::Failed { outcome: ConnectionOutcome::AlreadyConnected });
    let mut table = host(vec![(0, vec!["\\\\srv\\docs"])]);
    table.launch_value = 33;
    assert!(run(&mut table, "\\\\srv\\docs", "alice").0);
}

#[test]
fn an_enumeration_that_does_not_open_fails_open() {
    let mut table = host(vec![(0, vec!["\\\\srv\\docs"])]);
    table.open_status = 1222;
    let (success, phase) = run(&mut table, "\\\\srv\\docs", "alice");
    assert!(success);
    assert_eq!(phase, Phase::Done { outcome: ConnectionOutcome::Connected });
    assert_eq!(
        table.asked,
        vec![
            Action::OpenEnumeration,
            Action::Connect,
            Action::Launch,
            Action::Finish { success: true },
        ]
    );
    assert_eq!(count(&table, Action::CloseEnumeration), 0);
}

#[test]
fn an_error_on_the_first_page_yields_nothing_and_fails_open() {
    let mut table = host(vec![(5, vec!["\\\\srv\\docs"])]);
    let (success, phase) = run(&mut table, "\\\\srv\\docs", "alice");
    assert!(success);
    assert_eq!(phase, Phase::Done { outcome: ConnectionOutcome::Connected });
    assert_eq!(
        table.asked,
        vec![
            Action::OpenEnumeration,
            Action::FetchPage,
            Action::CloseEnumeration,
            Action::Connect,
            Action::Launch,
            Action::Finish { success: true },
        ]
    );
}

#[test]
fn the_enumeration_is_released_once_however_it_ends() {
    let exhausted = host(vec![(0, vec!["\\\\a\\b"]), (0, vec!["\\\\c\\d"])]);
    let failed = host(vec![(0, vec!["\\\\a\\b"]), (1222, vec![])]);
    let matched = host(vec![(0, vec!["\\\\a\\b"]), (0, vec!["\\\\srv\\docs"]), (0, vec![])]);
    for mut table in [exhausted, failed, matched] {
        run(&mut table, "\\\\srv\\docs", "alice");
        assert_eq!(count(&table, Action::CloseEnumeration), 1);
        assert_eq!(count(&table, Action::OpenEnumeration), 1);
        let release =
            table.asked.iter().position(|asked| *asked == Action::CloseEnumeration).unwrap();
        let fetch = table.asked.iter().rposition(|asked| *asked == Action::FetchPage).unwrap();
        assert!(fetch < release);
    }
}

#[test]
fn the_search_goes_through_every_page_until_the_table_is_exhausted() {
    let mut table = host(vec![(0, vec!["\\\\a\\b"]), (0, vec![]), (0, vec!["\\\\c\\d", "\\\\e\\f"])]);
    let (success, phase) = run(&mut table, "\\\\srv\\docs", "alice");
    assert!(success);
    assert_eq!(phase, Phase::Done { outcome: ConnectionOutcome::Connected });
    assert_eq!(count(&table, Action::FetchPage), 4);
    assert_eq!(count(&table, Action::Connect), 1);
}

#[test]
fn the_search_stops_at_the_page_that_holds_the_path() {
    let mut table =
        host(vec![(0, vec!["\\\\a\\b"]), (0, vec!["\\\\x\\y", "\\\\Srv\\DOCS"]), (1222, vec![])]);
    let (success, phase) = run(&mut table, "\\\\srv\\docs", "alice");
    assert!(success);
    assert_eq!(phase, Phase::Done { outcome: ConnectionOutcome::AlreadyConnected });
    assert_eq!(count(&table, Action::FetchPage), 2);
    assert_eq!(count(&table, Action::Connect), 0);
}

#[test]
fn an_error_before_the_page_that_holds_the_path_fails_open() {
    let mut table = host(vec![(1222, vec![]), (0, vec!["\\\\srv\\docs"])]);
    let (_, phase) = run(&mut table, "\\\\srv\\docs", "alice");
    assert_eq!(phase, Phase::Done { outcome: ConnectionOutcome::Connected });
    assert_eq!(count(&table, Action::FetchPage), 1);
    assert_eq!(count(&table, Action::Connect), 1);
}

#[test]
fn a_path_with_a_trailing_separator_is_another_path() {
    let mut table = host(vec![(0, vec!["\\\\srv\\docs\\"])]);
    let (_, phase) = run(&mut table, "\\\\srv\\docs", "alice");
    assert_eq!(phase, Phase::Done { outcome: ConnectionOutcome::Connected });
    assert_eq!(count(&table, Action::Connect), 1);
}

#[test]
fn a_malformed_page_fails_open() {
    let mut machine = Reconciler::new(request("\\\\srv\\docs", "alice"), AddressWidth::Bits64);
    assert_eq!(machine.step(Event::Opened { status: 0 }), Action::FetchPage);
    let page = page_of(&["\\\\srv\\docs"]);
    let cut = page[..40].to_vec();
    assert_eq!(
        machine.step(Event::Page { status: 0, count: 1, origin: ORIGIN, bytes: cut }),
        Action::CloseEnumeration
    );
    assert_eq!(machine.phase(), Phase::Releasing { found: false });
    assert_eq!(machine.step(Event::Closed { status: 0 }), Action::Connect);
}

#[test]
fn the_status_of_the_release_does_not_matter() {
    for status in [0, 6, u32::MAX] {
        let mut machine = Reconciler::new(request("\\\\srv\\docs", "alice"), AddressWidth::Bits64);
        machine.step(Event::Opened { status: 0 });
        machine.step(Event::Page {
            status: 0,
            count: 1,
            origin: ORIGIN,
            bytes: page_of(&["\\\\srv\\docs"]),
        });
        assert_eq!(machine.phase(), Phase::Releasing { found: true });
        assert_eq!(machine.step(Event::Closed { status }), Action::Launch);
        assert_eq!(machine.outcome(), Some(ConnectionOutcome::AlreadyConnected));
    }
}

#[test]
fn a_run_starts_by_opening_the_enumeration() {
    let machine = Reconciler::new(request("\\\\srv\\docs", "alice"), AddressWidth::Bits32);
    assert_eq!(machine.phase(), Phase::Start);
    assert_eq!(machine.pending(), Action::OpenEnumeration);
    assert_eq!(machine.outcome(), None);
}

#[test]
fn a_run_that_is_over_stays_over() {
    let mut machine = Reconciler::new(request("\\\\srv\\docs", "alice"), AddressWidth::Bits64);
    machine.step(Event::Opened { status: 5 });
    machine.step(Event::ConnectReturned { status: 0 });
    assert_eq!(machine.step(Event::LaunchReturned { value: 33 }), Action::Finish { success: true });
    let done = machine.phase();
    assert_eq!(machine.step(Event::LaunchReturned { value: 0 }), Action::Finish { success: true });
    assert_eq!(machine.step(Event::ConnectReturned { status: 5 }), Action::Finish { success: true });
    assert_eq!(machine.phase(), done);
}

#[test]
fn an_answer_out_of_turn_counts_as_a_failure() {
    let mut machine = Reconciler::new(request("\\\\srv\\docs", "alice"), AddressWidth::Bits64);
    assert_eq!(machine.step(Event::Closed { status: 0 }), Action::Connect);
    assert_eq!(
        machine.step(Event::LaunchReturned { value: 42 }),
        Action::Finish { success: false }
    );
    assert_eq!(machine.outcome(), Some(ConnectionOutcome::ConnectFailed));

    let mut machine = Reconciler::new(request("\\\\srv\\docs", "alice"), AddressWidth::Bits64);
    machine.step(Event::Opened { status: 0 });
    assert_eq!(machine.step(Event::Opened { status: 0 }), Action::CloseEnumeration);
    assert_eq!(machine.phase(), Phase::Releasing { found: false });

    let mut machine = Reconciler::new(request("\\\\srv\\docs", "alice"), AddressWidth::Bits64);
    machine.step(Event::Opened { status: 7 });
    machine.step(Event::ConnectReturned { status: 0 });
    assert_eq!(
        machine.step(Event::ConnectReturned { status: 0 }),
        Action::Finish { success: false }
    );
    assert_eq!(machine.phase(), Phase::Failed { outcome: ConnectionOutcome::Connected });
}

#[test]
fn the_requests_of_a_run_name_its_share() {
    let machine = Reconciler::new(request("\\\\s\\n", "bob"), AddressWidth::Bits64);
    let connect = machine.connect_request();
    assert_eq!(connect.remote_name, vec![0x5c, 0x5c, 0x73, 0x5c, 0x6e, 0]);
    assert_eq!(connect.user_name, vec![0x62, 0x6f, 0x62, 0]);
    assert_eq!(connect.flags, 28);
    assert_eq!(connect.resource_type, 1);
    let launch = machine.launch_request();
    assert_eq!(launch.verb, vec![0x6f, 0x70, 0x65, 0x6e, 0]);
    assert_eq!(launch.target, connect.remote_name);
    assert_eq!(launch.show, 1);
}

#[test]
fn pages_are_read_with_the_width_of_the_run() {
    let mut page = vec![0u8; 32];
    page[20..24].copy_from_slice(&0x1020u32.to_le_bytes());
    for unit in "\\\\srv\\docs".encode_utf16() {
        page.extend_from_slice(&unit.to_le_bytes());
    }
    page.extend_from_slice(&[0, 0]);
    let mut machine = Reconciler::new(request("\\\\SRV\\DOCS", "alice"), AddressWidth::Bits32);
    machine.step(Event::Opened { status: 0 });
    assert_eq!(
        machine.step(Event::Page { status: 0, count: 1, origin: 0x1000, bytes: page }),
        Action::CloseEnumeration
    );
    assert_eq!(machine.phase(), Phase::Releasing { found: true });
}

#[test]
fn only_a_page_without_the_path_keeps_the_search_going() {
    assert_eq!(phase_after_page(Some(PageScan::Absent)), Phase::Checking);
    assert_eq!(phase_after_page(Some(PageScan::Found)), Phase::Releasing { found: true });
    assert_eq!(phase_after_page(Some(PageScan::Malformed)), Phase::Releasing { found: false });
    assert_eq!(phase_after_page(None), Phase::Releasing { found: false });
}

#[test]
fn every_phase_waits_for_one_action() {
    let mounted = ConnectionOutcome::Connected;
    assert_eq!(pending_action(Phase::Start), Action::OpenEnumeration);
    assert_eq!(pending_action(Phase::Checking), Action::FetchPage);
    assert_eq!(pending_action(Phase::Releasing { found: true }), Action::CloseEnumeration);
    assert_eq!(pending_action(Phase::Releasing { found: false }), Action::CloseEnumeration);
    assert_eq!(pending_action(Phase::Connecting), Action::Connect);
    assert_eq!(pending_action(Phase::Launching { outcome: mounted }), Action::Launch);
    assert_eq!(pending_action(Phase::Done { outcome: mounted }), Action::Finish { success: true });
    assert_eq!(
        pending_action(Phase::Failed { outcome: mounted }),
        Action::Finish { success: false }
    );
}
