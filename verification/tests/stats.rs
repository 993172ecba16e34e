use mips_emulator::definitions::stats;

#[test]
fn counters_start_where_the_pipeline_fills() {
    let s = stats::new(5);
    assert_eq!(s.instruction_count, -3);
    assert_eq!(s.cycle_count, 0);
    let s = stats::new(2);
    assert_eq!(s.instruction_count, 0);
    assert_eq!(s.exec_total_time(), std::time::Duration::new(0, 0));
}

#[test]
fn counters_count() {
    let mut s = stats::new(5);
    for _ in 0..7 {
        s.cycle_incr();
    }
    for _ in 0..3 {
        s.instr_incr();
    }
    assert_eq!(s.cycle_count, 7);
    assert_eq!(s.instruction_count, 0);
    let total = s.mark_finished();
    assert_eq!(total, s.exec_total_time());
    assert_eq!(total, s.exec_total_time);
    assert_eq!(s.cycle_count, 7);
    assert_eq!(s.instruction_count, 0);
}
