use dac_core::stats::{StatsAdc, StatsDac, Statistics, ValueStats};

#[test]
fn value_stats_tracks_extremes_sum_count() {
    let mut v = ValueStats::new();
    v.update(5);
    v.update(-3);
    v.update(2);
    assert_eq!(v.min, -3);
    assert_eq!(v.max, 5);
    assert_eq!(v.sum, 4);
    assert_eq!(v.count, 3);
    assert_eq!(v.last, 2);
    v.reset();
    assert_eq!(v.count, 0);
    assert_eq!(v.sum, 0);
    assert_eq!(v.last, 0);
    assert_eq!(v.min, i32::MAX);
    assert_eq!(v.max, i32::MIN);
}

#[test]
fn value_stats_sum_saturates() {
    let mut v = ValueStats::new();
    v.sum = i64::MAX - 1;
    v.update(5);
    assert_eq!(v.sum, i64::MAX);
    let mut w = ValueStats::new();
    w.sum = i64::MIN + 1;
    w.update(-7);
    assert_eq!(w.sum, i64::MIN);
}

#[test]
fn dac_counters_accumulate() {
    let mut s = StatsDac::new();
    s.report_lost_empty(3);
    s.report_lost_empty(2);
    s.report_lost_full(1);
    s.report_req_exceed(4);
    s.update_value(11);
    assert_eq!(s.lost_empty, 5);
    assert_eq!(s.lost_full, 1);
    assert_eq!(s.req_exceed, 4);
    assert_eq!(s.value.last, 11);
    s.reset();
    assert_eq!(s.lost_empty, 0);
    assert_eq!(s.lost_full, 0);
    assert_eq!(s.req_exceed, 0);
    assert_eq!(s.value.count, 0);
}

#[test]
fn counter_saturates_at_limit() {
    let mut s = StatsDac::new();
    s.lost_full = u64::MAX - 1;
    s.report_lost_full(7);
    assert_eq!(s.lost_full, u64::MAX);
}

#[test]
fn adc_updates_channels_independently() {
    let mut a = StatsAdc::new(3);
    a.update_values(&vec![1, -2, 3]);
    a.update_values(&vec![4, -5, 0]);
    assert_eq!(a.values[0].max, 4);
    assert_eq!(a.values[1].min, -5);
    assert_eq!(a.values[2].sum, 3);
    assert_eq!(a.values[2].count, 2);
    a.report_lost_full(2);
    assert_eq!(a.lost_full, 2);
    a.reset();
    assert_eq!(a.lost_full, 0);
    assert_eq!(a.values[1].count, 0);
}

#[test]
fn sample_interrupt_bookkeeping() {
    let mut st = Statistics::new(2);
    st.intr_clock();
    st.intr_sample();
    st.intr_sample();
    st.report_sample();
    assert_eq!(st.sync_count, 1);
    assert_eq!(st.ready_count, 2);
    assert_eq!(st.sample_count, 1);
    assert_eq!(st.max_intrs_per_sample, 2);
    st.intr_sample();
    st.report_sample();
    assert_eq!(st.sample_count, 2);
    assert_eq!(st.max_intrs_per_sample, 2);
    st.report_crc_error();
    assert_eq!(st.crc_error_count, 1);
    st.reset();
    assert_eq!(st.sync_count, 0);
    assert_eq!(st.ready_count, 0);
    assert_eq!(st.sample_count, 0);
    assert_eq!(st.max_intrs_per_sample, 0);
    assert_eq!(st.crc_error_count, 0);
}
