use battlesnake::board::Board;
use battlesnake::customization::{BattlesnakeCustomizations, Color, Head};
use battlesnake::error::ProtocolError;
use battlesnake::grid::Point;
use battlesnake::registry::SessionRegistry;
use battlesnake::request::{Request, RequestType};
use battlesnake::rules::{
    Game, RoyaleRulesetSettings, Ruleset, RulesetSettings, SquadRulesetSetting,
};
use battlesnake::session::Session;
use battlesnake::snake::Battlesnake;

fn game(id: &str) -> Game {
    Game {
        id: id.to_string(),
        ruleset: Ruleset {
            name: "standard".to_string(),
            version: "v1.2.3".to_string(),
            settings: RulesetSettings {
                foodSpawnChance: 25,
                minimumFood: 1,
                hazardDamagePerTurn: 14,
                royale: RoyaleRulesetSettings { shrinkEveryNTurns: 5 },
                squad: SquadRulesetSetting {
                    allowBodyCollisions: false,
                    sharedElimination: false,
                    sharedHealth: false,
                    sharedLength: false,
                },
            },
        },
        map: "standard".to_string(),
        timeout: 500,
        source: "custom".to_string(),
    }
}

fn snake(id: &str, x: u8, y: u8) -> Battlesnake {
    Battlesnake::new(
        id.to_string(),
        "name".to_string(),
        100,
        vec![Point { x, y }],
        "0".to_string(),
        Point { x, y },
        1,
        String::new(),
        String::new(),
        BattlesnakeCustomizations { color: Color::default(), head: Head::Default, tail: 0 },
    )
    .unwrap()
}

/// An 11 by 11 board with one snake, and one food cell that tells boards apart.
fn board(mark: u8) -> Board {
    Board::new(11, 11, vec![Point { x: mark, y: 0 }], vec![], vec![snake("s1", 5, 5)]).unwrap()
}

fn session(id: &str, now: u64) -> Session {
    Session::new(game(id), 0, board(0), "s1".to_string(), now)
}

fn request(id: &str, turn: usize, mark: u8) -> Request {
    Request { game: game(id), turn, board: board(mark), you: snake("s1", 5, 5) }
}

#[test]
fn new_registry_has_no_session() {
    let reg = SessionRegistry::new();
    assert!(!reg.is_active("g1"));
    assert!(!reg.is_active(""));
    assert_eq!(reg.snapshot("g1"), None);
}

#[test]
fn start_opens_a_session() {
    let mut reg = SessionRegistry::new();
    assert_eq!(reg.start("g1".to_string(), session("g1", 10)), Ok(()));
    assert!(reg.is_active("g1"));
    assert!(!reg.is_active("g2"));
    let seen = reg.snapshot("g1").unwrap();
    assert_eq!(seen.turn(), 0);
    assert_eq!(seen.game().id, "g1");
    assert_eq!(seen.you(), "s1");
    assert_eq!(seen.board(), &board(0));
}

#[test]
fn snapshot_reads_the_session_of_the_game_asked_for() {
    let mut reg = SessionRegistry::new();
    reg.start("g1".to_string(), session("g1", 10)).unwrap();
    reg.start("g2".to_string(), session("g2", 10)).unwrap();
    reg.update("g2", 4, board(4), &snake("s2", 1, 1), 20).unwrap();
    let one = reg.snapshot("g1").unwrap();
    let two = reg.snapshot("g2").unwrap();
    assert_eq!((one.turn(), one.game().id.as_str(), one.you()), (0, "g1", "s1"));
    assert_eq!((two.turn(), two.game().id.as_str(), two.you()), (4, "g2", "s2"));
    assert_eq!(two.board(), &board(4));
    assert_eq!(reg.snapshot("g3"), None);
}

#[test]
fn duplicate_start_is_refused_and_keeps_the_session() {
    let mut reg = SessionRegistry::new();
    reg.start("g1".to_string(), session("g1", 10)).unwrap();
    reg.update("g1", 3, board(3), &snake("s1", 5, 6), 20).unwrap();
    let again = Session::new(game("g1"), 0, board(9), "other".to_string(), 30);
    assert_eq!(reg.start("g1".to_string(), again), Err(ProtocolError::DuplicateStart));
    let seen = reg.snapshot("g1").unwrap();
    assert_eq!(seen.turn(), 3);
    assert_eq!(seen.board(), &board(3));
    assert_eq!(seen.you(), "s1");
}

#[test]
fn session_ordering() {
    let mut reg = SessionRegistry::new();
    assert_eq!(reg.start("g1".to_string(), session("g1", 10)), Ok(()));
    let first = reg.update("g1", 5, board(5), &snake("s1", 5, 6), 20).unwrap();
    assert_eq!(first.turn(), 5);
    let second = reg.update("g1", 3, board(3), &snake("s1", 5, 7), 30);
    assert_eq!(second, Err(ProtocolError::StaleTurn));
    let seen = reg.snapshot("g1").unwrap();
    assert_eq!(seen.turn(), 5);
    assert_eq!(seen.board(), &board(5));
}

#[test]
fn update_replaces_turn_board_and_snake() {
    let mut reg = SessionRegistry::new();
    reg.start("g1".to_string(), session("g1", 10)).unwrap();
    let copy = reg.update("g1", 1, board(7), &snake("s9", 2, 2), 20).unwrap();
    assert_eq!(copy.turn(), 1);
    assert_eq!(copy.board(), &board(7));
    assert_eq!(copy.you(), "s9");
    assert_eq!(copy.game(), &game("g1"));
    assert_eq!(reg.snapshot("g1"), Some(copy));
}

#[test]
fn update_for_the_recorded_turn_is_stale() {
    let mut reg = SessionRegistry::new();
    reg.start("g1".to_string(), session("g1", 10)).unwrap();
    assert_eq!(reg.update("g1", 0, board(1), &snake("s1", 5, 5), 20), Err(ProtocolError::StaleTurn));
    reg.update("g1", 8, board(8), &snake("s1", 5, 5), 30).unwrap();
    assert_eq!(reg.update("g1", 8, board(2), &snake("s1", 5, 5), 40), Err(ProtocolError::StaleTurn));
    assert_eq!(reg.update("g1", 7, board(2), &snake("s1", 5, 5), 40), Err(ProtocolError::StaleTurn));
    let seen = reg.snapshot("g1").unwrap();
    assert_eq!(seen.turn(), 8);
    assert_eq!(seen.board(), &board(8));
    assert_eq!(reg.update("g1", 9, board(9), &snake("s1", 5, 5), 50).unwrap().turn(), 9);
}

#[test]
fn update_may_skip_turns() {
    let mut reg = SessionRegistry::new();
    reg.start("g1".to_string(), session("g1", 10)).unwrap();
    assert_eq!(reg.update("g1", usize::MAX, board(1), &snake("s1", 5, 5), 20).unwrap().turn(), usize::MAX);
    assert_eq!(reg.update("g1", usize::MAX, board(2), &snake("s1", 5, 5), 30), Err(ProtocolError::StaleTurn));
}

#[test]
fn stale_update_does_not_refresh_the_session() {
    let mut reg = SessionRegistry::new();
    reg.start("g1".to_string(), session("g1", 10)).unwrap();
    reg.update("g1", 5, board(5), &snake("s1", 5, 5), 20).unwrap();
    assert_eq!(reg.update("g1", 5, board(5), &snake("s1", 5, 5), 1000), Err(ProtocolError::StaleTurn));
    reg.sweep(1000, 100);
    assert!(!reg.is_active("g1"));
}

#[test]
fn lifecycle_before_start() {
    let mut reg = SessionRegistry::new();
    assert_eq!(reg.update("g1", 1, board(1), &snake("s1", 5, 5), 10), Err(ProtocolError::UnknownSession));
    assert_eq!(reg.end("g1"), Err(ProtocolError::UnknownSession));
    assert!(!reg.is_active("g1"));
    reg.start("g2".to_string(), session("g2", 10)).unwrap();
    assert_eq!(reg.update("g1", 1, board(1), &snake("s1", 5, 5), 10), Err(ProtocolError::UnknownSession));
    assert_eq!(reg.end("g1"), Err(ProtocolError::UnknownSession));
    assert!(reg.is_active("g2"));
}

#[test]
fn lifecycle_after_end() {
    let mut reg = SessionRegistry::new();
    reg.start("g1".to_string(), session("g1", 10)).unwrap();
    reg.update("g1", 1, board(1), &snake("s1", 5, 5), 20).unwrap();
    assert_eq!(reg.end("g1"), Ok(()));
    assert!(!reg.is_active("g1"));
    assert_eq!(reg.snapshot("g1"), None);
    assert_eq!(reg.update("g1", 2, board(2), &snake("s1", 5, 5), 30), Err(ProtocolError::UnknownSession));
    assert_eq!(reg.end("g1"), Err(ProtocolError::UnknownSession));
    assert!(!reg.is_active("g1"));
}

#[test]
fn a_game_can_start_again_after_its_end() {
    let mut reg = SessionRegistry::new();
    reg.start("g1".to_string(), session("g1", 10)).unwrap();
    reg.update("g1", 40, board(4), &snake("s1", 5, 5), 20).unwrap();
    reg.end("g1").unwrap();
    assert_eq!(reg.start("g1".to_string(), session("g1", 30)), Ok(()));
    assert_eq!(reg.snapshot("g1").unwrap().turn(), 0);
    assert_eq!(reg.update("g1", 1, board(1), &snake("s1", 5, 5), 40).unwrap().turn(), 1);
}

#[test]
fn end_to_end_scenario() {
    let mut reg = SessionRegistry::new();
    let opened = reg.handle(RequestType::Start, request("g1", 0, 0), 100);
    assert_eq!(opened, Ok(None));
    assert!(reg.is_active("g1"));

    let moved = reg.handle(RequestType::Move, request("g1", 1, 0), 200).unwrap().unwrap();
    assert_eq!(moved.turn(), 1);
    assert_eq!(moved.game().id, "g1");
    assert_eq!(moved.you(), "s1");
    assert_eq!(moved.board().width(), 11);
    assert_eq!(moved.board().height(), 11);
    assert_eq!(moved.board().snakes()[0].body(), &vec![Point { x: 5, y: 5 }]);
    assert_eq!(moved.board().snakes()[0].health(), 100);

    assert_eq!(reg.handle(RequestType::End, request("g1", 2, 0), 300), Ok(None));
    assert!(!reg.is_active("g1"));

    assert_eq!(reg.handle(RequestType::Move, request("g1", 3, 0), 400), Err(ProtocolError::UnknownSession));
    assert!(!reg.is_active("g1"));
}

#[test]
fn handle_refuses_a_start_for_another_turn_than_0() {
    let mut reg = SessionRegistry::new();
    assert_eq!(reg.handle(RequestType::Start, request("g1", 1, 0), 100), Err(ProtocolError::MalformedState));
    assert!(!reg.is_active("g1"));
}

#[test]
fn handle_refuses_each_message_as_the_operations_do() {
    let mut reg = SessionRegistry::new();
    assert_eq!(reg.handle(RequestType::Move, request("g1", 1, 0), 100), Err(ProtocolError::UnknownSession));
    assert_eq!(reg.handle(RequestType::End, request("g1", 1, 0), 100), Err(ProtocolError::UnknownSession));
    assert_eq!(reg.handle(RequestType::Start, request("g1", 0, 0), 100), Ok(None));
    assert_eq!(reg.handle(RequestType::Start, request("g1", 0, 1), 100), Err(ProtocolError::DuplicateStart));
    assert_eq!(reg.handle(RequestType::Move, request("g1", 0, 1), 100), Err(ProtocolError::StaleTurn));
    assert_eq!(reg.snapshot("g1").unwrap().board(), &board(0));
    let seen = reg.handle(RequestType::Move, request("g1", 2, 2), 100).unwrap().unwrap();
    assert_eq!(seen.board(), &board(2));
    assert_eq!(reg.snapshot("g1"), Some(seen));
}

#[test]
fn games_do_not_touch_each_other() {
    let mut reg = SessionRegistry::new();
    reg.start("a".to_string(), session("a", 0)).unwrap();
    reg.start("b".to_string(), session("b", 0)).unwrap();
    let mut turn_a = 0;
    let mut turn_b = 0;
    for step in 1..=40usize {
        if step % 3 == 0 {
            turn_b += 2;
            let seen = reg.update("b", turn_b, board(2), &snake("sb", 1, 1), step as u64).unwrap();
            assert_eq!(seen.turn(), turn_b);
        } else if step % 5 == 0 {
            assert_eq!(reg.update("a", turn_a, board(9), &snake("sx", 1, 1), step as u64), Err(ProtocolError::StaleTurn));
            assert_eq!(reg.update("c", 1, board(9), &snake("sx", 1, 1), step as u64), Err(ProtocolError::UnknownSession));
        } else {
            turn_a += 1;
            let seen = reg.update("a", turn_a, board(1), &snake("sa", 1, 1), step as u64).unwrap();
            assert_eq!(seen.turn(), turn_a);
        }
        let a = reg.snapshot("a").unwrap();
        let b = reg.snapshot("b").unwrap();
        assert_eq!(a.turn(), turn_a);
        assert_eq!(b.turn(), turn_b);
        assert_eq!(a.game().id, "a");
        assert_eq!(b.game().id, "b");
        if turn_a > 0 {
            assert_eq!((a.you(), a.board()), ("sa", &board(1)));
        }
        if turn_b > 0 {
            assert_eq!((b.you(), b.board()), ("sb", &board(2)));
        }
    }
    reg.end("a").unwrap();
    assert_eq!(reg.snapshot("b").unwrap().turn(), turn_b);
}

#[test]
fn sweep_drops_only_the_idle() {
    let mut reg = SessionRegistry::new();
    reg.start("old".to_string(), session("old", 1_000)).unwrap();
    reg.start("edge".to_string(), session("edge", 2_000)).unwrap();
    reg.start("new".to_string(), session("new", 2_001)).unwrap();
    reg.sweep(7_000, 5_000);
    assert!(!reg.is_active("old"));
    assert!(reg.is_active("edge"));
    assert!(reg.is_active("new"));
    reg.sweep(7_001, 5_000);
    assert!(!reg.is_active("edge"));
    assert!(reg.is_active("new"));
    assert_eq!(reg.snapshot("new").unwrap().turn(), 0);
}

#[test]
fn sweep_goes_by_the_last_accepted_move() {
    let mut reg = SessionRegistry::new();
    reg.start("quiet".to_string(), session("quiet", 0)).unwrap();
    reg.start("busy".to_string(), session("busy", 0)).unwrap();
    reg.update("busy", 1, board(1), &snake("s1", 5, 5), 900).unwrap();
    reg.sweep(1_000, 500);
    assert!(!reg.is_active("quiet"));
    assert!(reg.is_active("busy"));
    assert_eq!(reg.update("quiet", 1, board(1), &snake("s1", 5, 5), 1_000), Err(ProtocolError::UnknownSession));
    assert_eq!(reg.snapshot("busy").unwrap().turn(), 1);
}

#[test]
fn sweep_with_a_clock_that_went_back_drops_nothing() {
    let mut reg = SessionRegistry::new();
    reg.start("g1".to_string(), session("g1", 5_000)).unwrap();
    reg.sweep(1_000, 0);
    assert!(reg.is_active("g1"));
    reg.sweep(5_000, 0);
    assert!(reg.is_active("g1"));
    reg.sweep(5_001, 0);
    assert!(!reg.is_active("g1"));
}

#[test]
fn sweep_with_the_longest_patience_drops_nothing() {
    let mut reg = SessionRegistry::new();
    reg.start("g1".to_string(), session("g1", 0)).unwrap();
    reg.sweep(u64::MAX, u64::MAX);
    assert!(reg.is_active("g1"));
    reg.sweep(u64::MAX, u64::MAX - 1);
    assert!(!reg.is_active("g1"));
}

#[test]
fn session_idle_and_fresh_are_opposites() {
    let s = session("g1", 100);
    assert!(!s.is_idle(100, 0));
    assert!(s.is_fresh(100, 0));
    assert!(s.is_idle(101, 0));
    assert!(!s.is_fresh(101, 0));
    assert!(!s.is_idle(150, 50));
    assert!(s.is_idle(151, 50));
    assert!(!s.is_idle(0, 0));
}

#[test]
fn session_refuses_a_stale_move_unchanged() {
    let mut s = session("g1", 100);
    s.advance(4, board(4), "s2".to_string(), 200).unwrap();
    assert_eq!(s.advance(4, board(5), "s3".to_string(), 300), Err(ProtocolError::StaleTurn));
    assert_eq!(s.advance(0, board(5), "s3".to_string(), 300), Err(ProtocolError::StaleTurn));
    assert_eq!(s.turn(), 4);
    assert_eq!(s.last_seen(), 200);
    assert_eq!(s.snapshot().board(), &board(4));
    assert_eq!(s.snapshot().you(), "s2");
}

#[test]
fn session_advance_keeps_the_game() {
    let mut s = session("g1", 100);
    let copy = s.advance(4, board(4), "s2".to_string(), 200).unwrap();
    assert_eq!(copy, s.snapshot());
    assert_eq!(s.turn(), 4);
    assert_eq!(s.last_seen(), 200);
    let seen = s.snapshot();
    assert_eq!(seen.game(), &game("g1"));
    assert_eq!(seen.board(), &board(4));
    assert_eq!(seen.you(), "s2");
    assert_eq!(seen.turn(), 4);
}

#[test]
fn keys_are_compared_by_their_characters() {
    let mut reg = SessionRegistry::new();
    reg.start("g1".to_string(), session("g1", 0)).unwrap();
    assert!(reg.is_active(&format!("g{}", 1)));
    assert!(!reg.is_active("G1"));
    assert!(!reg.is_active("g1 "));
    assert_eq!(reg.end("G1"), Err(ProtocolError::UnknownSession));
    assert!(reg.is_active("g1"));
}
