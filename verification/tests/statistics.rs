use evtclib::statistics::boon::{BoonQueue, BoonType};
use evtclib::statistics::boon::{BoonArea, BoonLog, Stacks};
use evtclib::statistics::damage::{Damage, DamageLog, DamageType};
use evtclib::statistics::gamedata::{boons, get_boon, get_mechanics, Boss, Trigger};
use evtclib::statistics::math::{Monoid, RecordFunc, Semigroup};
use evtclib::statistics::mechanics::{Counter, MechanicLog};

#[test]
fn test_queue_capacity() {
    let mut queue = BoonQueue::new(5, BoonType::Intensity);
    assert_eq!(queue.current_stacks(), 0);
    for _ in 0..10 {
        queue.add_stack(10);
    }
    assert_eq!(queue.current_stacks(), 5);
}

#[test]
fn test_simulate_duration() {
    let mut queue = BoonQueue::new(10, BoonType::Duration);
    queue.add_stack(10);
    queue.add_stack(20);
    assert_eq!(queue.current_stacks(), 1);
    queue.simulate(30);
    assert_eq!(queue.current_stacks(), 0);

    queue.add_stack(50);
    queue.simulate(30);
    assert_eq!(queue.current_stacks(), 1);
    queue.simulate(10);
    assert_eq!(queue.current_stacks(), 1);
    queue.simulate(15);
    assert_eq!(queue.current_stacks(), 0);
}

#[test]
fn test_simulate_intensity() {
    let mut queue = BoonQueue::new(5, BoonType::Intensity);

    queue.add_stack(10);
    queue.add_stack(20);
    assert_eq!(queue.current_stacks(), 2);

    queue.simulate(5);
    assert_eq!(queue.current_stacks(), 2);

    queue.simulate(5);
    assert_eq!(queue.current_stacks(), 1);
    queue.simulate(15);
    assert_eq!(queue.current_stacks(), 0);
}

#[test]
fn queue_keeps_longest_stacks_within_capacity() {
    let mut queue = BoonQueue::new(3, BoonType::Duration);
    for d in [5u64, 40, 10, 30, 20] {
        queue.add_stack(d);
    }
    // The three longest stacks stay: 40 + 30 + 20.
    assert_eq!(queue.next_change(), 90);
    assert_eq!(queue.next_update(), 20);
    queue.simulate(45);
    // 45 ms use up the stack of 40 and 5 of the next one.
    assert_eq!(queue.next_change(), 45);
    assert!(!queue.is_empty());
    queue.clear();
    assert!(queue.is_empty());
    assert_eq!(queue.next_change(), 0);
    assert_eq!(queue.boon_type(), BoonType::Duration);
}

#[test]
fn intensity_next_change_is_shortest_stack() {
    let mut queue = BoonQueue::new(25, BoonType::Intensity);
    queue.add_stack(30);
    queue.add_stack(12);
    queue.add_stack(20);
    assert_eq!(queue.next_change(), 12);
    queue.simulate(0);
    assert_eq!(queue.current_stacks(), 3);
    queue.simulate(12);
    assert_eq!(queue.current_stacks(), 2);
    assert_eq!(queue.next_update(), 8);
}

fn create() -> RecordFunc<u32, u8, Damage> {
    let mut result = RecordFunc::new();

    result.insert(6, 1, Damage(6));
    result.insert(4, 0, Damage(5));
    result.insert(0, 1, Damage(3));
    result.insert(2, 0, Damage(4));

    result
}

#[test]
fn recordfunc_get() {
    let rf = create();

    assert_eq!(rf.get(&3), Damage(7));
    assert_eq!(rf.get(&4), Damage(12));
}

#[test]
fn recordfunc_get_only() {
    let rf = create();

    assert_eq!(rf.get_only(&3, |t| *t == 0), Damage(4));
}

#[test]
fn recordfunc_between() {
    let rf = create();

    assert_eq!(rf.between(&1, &5), Damage(9));
}

#[test]
fn recordfunc_tally_and_len() {
    let rf = create();

    assert_eq!(rf.len(), 4);
    assert_eq!(rf.tally(), Damage(18));
    assert_eq!(rf.tally_only(|t| *t == 1), Damage(9));
    assert_eq!(rf.between_only(&0, &4, |t| *t == 1), Damage(3));
    assert_eq!(rf.between(&5, &1), Damage(0));
}

#[test]
fn damage_log_sums_filtered_entries() {
    let mut log = DamageLog::new();
    log.log(10, 1, 100, DamageType::Physical, 5, 200);
    log.log(30, 2, 100, DamageType::Condition, 6, 50);
    log.log(20, 1, 200, DamageType::Condition, 7, 25);
    assert_eq!(log.damage(|_| true), Damage(275));
    assert_eq!(log.damage(|m| m.source == 1), Damage(225));
    assert_eq!(log.damage(|m| m.kind == DamageType::Condition), Damage(75));
    // Both ends count.
    assert_eq!(log.damage_between(10, 20, |_| true), Damage(225));
    assert_eq!(log.damage_between(11, 30, |m| m.target == 100), Damage(50));
    assert_eq!(log.damage_between(30, 10, |_| true), Damage(0));
}

#[test]
fn mechanic_log_counts_filtered_occurrences() {
    let vg = get_mechanics(0x3C4E);
    assert_eq!(vg.len(), 1);
    assert_eq!(vg[0].name(), "Unstable Magic Spike");
    assert_eq!(*vg[0].trigger(), Trigger::SkillOnPlayer(31392));
    assert_eq!(vg[0].boss_id(), 0x3C4E);
    let gorseval = get_mechanics(0x3C45);
    assert_eq!(gorseval.len(), 2);
    assert!(get_mechanics(1).is_empty());
    let mut log = MechanicLog::new();
    log.increase(10, vg[0], 100);
    log.increase(5, gorseval[0], 100);
    log.increase(20, vg[0], 200);
    assert_eq!(log.count(|_, _| true), 3);
    assert_eq!(log.count(|_, agent| agent == 100), 2);
    assert_eq!(log.count(|m, _| m.boss_id() == 0x3C4E), 2);
    assert_eq!(log.count(|_, _| false), 0);
}

#[test]
fn boon_table_lookup() {
    let might = get_boon(740).unwrap();
    assert_eq!(might.1, "Might");
    assert_eq!(might.2, 25);
    assert_eq!(might.3, BoonType::Intensity);
    let queue = might.create_queue();
    assert_eq!(queue.boon_type(), BoonType::Intensity);
    assert!(queue.is_empty());
    assert_eq!(get_boon(743).unwrap().3, BoonType::Duration);
    assert_eq!(*get_boon(1187).unwrap(), evtclib::statistics::gamedata::Boon(1187, "Quickness", 5, BoonType::Duration));
    let gorseval = get_mechanics(0x3C45);
    assert_eq!(gorseval[0].name(), "Spectral Impact");
    assert_eq!(gorseval[1].name(), "Ghastly Prison");
    assert!(get_boon(1).is_none());
    assert_eq!(boons().len(), 25);
    assert_eq!(Boss::ValeGuardian.id(), 0x3C4E);
}

#[test]
fn monoid_laws_on_values() {
    assert_eq!(Damage::mempty().combine(&Damage(7)), Damage(7));
    assert_eq!(Damage(7).combine(&Damage::mempty()), Damage(7));
    assert_eq!(Damage(3).combine(&Damage(4)).combine(&Damage(5)), Damage(3).combine(&Damage(4).combine(&Damage(5))));
    assert_eq!(Stacks(-2).combine(&Stacks(5)), Stacks(3));
    assert_eq!(Stacks::mempty(), Stacks(0));
    assert_eq!(BoonArea(4).combine(&BoonArea(6)), BoonArea(10));
    assert_eq!(Stacks(3) * 10, BoonArea(30));
    assert_eq!(Stacks(-1) * 1, BoonArea(u64::MAX));
    assert_eq!(Counter(1).combine(&Counter(1)), Counter(2));
    assert_eq!(Counter::mempty(), Counter(0));
}

#[test]
fn duration_simulation_uses_up_longest_stacks_first() {
    let mut queue = BoonQueue::new(5, BoonType::Duration);
    queue.add_stack(10);
    queue.add_stack(30);
    queue.add_stack(20);
    assert_eq!(queue.next_change(), 60);
    assert!(queue.next_update() <= queue.next_change());
    queue.simulate(35);
    assert_eq!(queue.next_change(), 25);
    assert_eq!(queue.next_update(), 10);
    assert_eq!(queue.current_stacks(), 1);
    // More time than there is left empties the queue.
    queue.simulate(100);
    assert!(queue.is_empty());
    assert_eq!(queue.current_stacks(), 0);
}

#[test]
fn boon_log_records_stack_changes() {
    let mut log = BoonLog::new();
    assert_eq!(log.stacks_at(100, 740), 0);
    log.log(10, 740, 3);
    log.log(20, 740, 3);
    log.log(30, 740, 1);
    log.log(15, 1187, 1);
    assert_eq!(log.stacks_at(5, 740), 0);
    assert_eq!(log.stacks_at(10, 740), 3);
    assert_eq!(log.stacks_at(25, 740), 3);
    assert_eq!(log.stacks_at(30, 740), 1);
    assert_eq!(log.stacks_at(1000, 740), 1);
    assert_eq!(log.stacks_at(14, 1187), 0);
    assert_eq!(log.stacks_at(15, 1187), 1);
    assert_eq!(log.stacks_at(15, 1), 0);
    log.log(40, 740, 0);
    assert_eq!(log.stacks_at(40, 740), 0);
    assert_eq!(log.stacks_at(35, 740), 1);
}

#[test]
fn simulating_twice_shows_what_simulating_once_shows() {
    // Duration stacks: the second step uses up the longest stack first, so the stacks differ,
    // but the remaining time and whether a stack is left agree.
    for (a, b) in [(2u64, 4u64), (5, 5), (1, 20), (3, 0), (0, 7)] {
        let mut twice = BoonQueue::new(5, BoonType::Duration);
        let mut once = BoonQueue::new(5, BoonType::Duration);
        for d in [5u64, 5, 0] {
            twice.add_stack(d);
            once.add_stack(d);
        }
        twice.simulate(a);
        twice.simulate(b);
        once.simulate(a + b);
        assert_eq!(twice.current_stacks(), once.current_stacks());
        assert_eq!(twice.next_change(), once.next_change());
    }
    // Exactly the time held: the empty stack is left in both.
    let mut twice = BoonQueue::new(5, BoonType::Duration);
    twice.add_stack(6);
    twice.add_stack(0);
    twice.simulate(2);
    twice.simulate(4);
    assert_eq!(twice.current_stacks(), 1);
    assert_eq!(twice.next_change(), 0);
    let mut once = BoonQueue::new(5, BoonType::Duration);
    once.add_stack(6);
    once.add_stack(0);
    once.simulate(6);
    assert_eq!(once.current_stacks(), 1);
    assert_eq!(once.next_change(), 0);
    // Intensity stacks come out the same.
    let mut twice = BoonQueue::new(5, BoonType::Intensity);
    let mut once = BoonQueue::new(5, BoonType::Intensity);
    for d in [3u64, 9, 6] {
        twice.add_stack(d);
        once.add_stack(d);
    }
    twice.simulate(2);
    twice.simulate(2);
    once.simulate(4);
    assert_eq!(twice.current_stacks(), 2);
    assert_eq!(once.current_stacks(), 2);
    assert_eq!(twice.next_change(), once.next_change());
    assert_eq!(twice.next_update(), 2);
}

#[test]
fn recordfunc_get_after_insert_adds_where_it_counts() {
    let mut rf = create();
    let before: Vec<Damage> = (0..8).map(|y| rf.get(&y)).collect();
    rf.insert(3, 0, Damage(10));
    for y in 0u32..8 {
        let expected = if y >= 3 { Damage(before[y as usize].0 + 10) } else { before[y as usize] };
        assert_eq!(rf.get(&y), expected);
    }
    // At or after the last point, the value is the tally.
    assert_eq!(rf.get(&6), rf.tally());
    assert_eq!(rf.get(&100), rf.tally());
    let empty: RecordFunc<u32, u8, Damage> = RecordFunc::new();
    assert_eq!(empty.tally(), Damage::mempty());
}

#[test]
fn recordfunc_filter_and_its_negation_sum_to_tally() {
    let rf = create();
    let kept = rf.tally_only(|t| *t == 0);
    let left = rf.tally_only(|t| *t != 0);
    assert_eq!(kept.combine(&left), rf.tally());
    assert_eq!(rf.tally_only(|_| true), rf.tally());
    assert_eq!(rf.tally_only(|_| false), Damage::mempty());
}

#[test]
fn damage_log_laws_on_values() {
    let mut log = DamageLog::new();
    assert_eq!(log.damage(|_| true), Damage(0));
    log.log(10, 1, 100, DamageType::Physical, 5, 200);
    log.log(30, 2, 100, DamageType::Condition, 6, 50);
    let before_all = log.damage(|_| true);
    let before_one = log.damage(|m| m.source == 1);
    let before_range = log.damage_between(15, 40, |_| true);
    log.log(20, 1, 200, DamageType::Condition, 7, 25);
    assert_eq!(log.damage(|_| true), Damage(before_all.0 + 25));
    assert_eq!(log.damage(|m| m.source == 1), Damage(before_one.0 + 25));
    assert_eq!(log.damage(|m| m.source == 2), Damage(50));
    assert_eq!(log.damage_between(15, 40, |_| true), Damage(before_range.0 + 25));
    assert_eq!(log.damage_between(21, 40, |_| true), before_range);
    // The whole range gives what the unranged sum gives.
    assert_eq!(log.damage_between(0, u64::MAX, |m| m.target == 100), log.damage(|m| m.target == 100));
    assert_eq!(log.damage_between(0, u64::MAX, |_| true), log.damage(|_| true));
}

#[test]
fn mechanic_log_counts_each_accepted_increase() {
    let vg = get_mechanics(0x3C4E);
    let gorseval = get_mechanics(0x3C45);
    let mut log = MechanicLog::new();
    assert_eq!(log.count(|_, _| true), 0);
    let mut accepted = 0;
    for (i, (m, agent)) in [(vg[0], 100u64), (gorseval[0], 100), (vg[0], 200), (gorseval[1], 300)]
        .into_iter()
        .enumerate()
    {
        let before = log.count(|_, a| a == 100);
        log.increase(40 - i as u64, m, agent);
        if agent == 100 {
            accepted += 1;
            assert_eq!(log.count(|_, a| a == 100), before + 1);
        } else {
            assert_eq!(log.count(|_, a| a == 100), before);
        }
    }
    assert_eq!(log.count(|_, a| a == 100), accepted);
    assert_eq!(log.count(|_, _| true), 4);
    assert_eq!(log.count(|m, _| m.boss_id() == 0x3C4E) + log.count(|m, _| m.boss_id() != 0x3C4E), 4);
}
