use smithy_orchestrator::attempts::{ConfigValue, RequestAttemptsInterceptor, REQUEST_ATTEMPTS_KEY};
use smithy_orchestrator::config_bag::ConfigBag;
use smithy_orchestrator::context::InterceptorContext;

fn attempts(cfg: &ConfigBag<ConfigValue>) -> u32 {
    match cfg.get(REQUEST_ATTEMPTS_KEY) {
        Some(ConfigValue::RequestAttempts(a)) => a.attempts(),
        _ => 0,
    }
}

#[test]
fn put_in_layer_is_visible_until_pop() {
    let mut bag: ConfigBag<u64> = ConfigBag::new();
    bag.put(1, 10);
    bag.push_layer();
    assert_eq!(Some(&10), bag.get(1));
    bag.put(1, 11);
    bag.put(2, 20);
    assert_eq!(Some(&11), bag.get(1));
    assert_eq!(Some(&20), bag.get(2));
    assert!(bag.pop_layer());
    assert_eq!(Some(&10), bag.get(1));
    assert_eq!(None, bag.get(2));
    assert_eq!(1, bag.depth());
}

#[test]
fn latest_put_wins() {
    let mut bag: ConfigBag<&str> = ConfigBag::new();
    bag.put(7, "a");
    bag.put(7, "b");
    assert_eq!(Some(&"b"), bag.get(7));
    assert_eq!(None, bag.get(8));
}

#[test]
fn pop_on_empty_bag_changes_nothing() {
    let mut bag: ConfigBag<u64> = ConfigBag::new();
    assert!(bag.pop_layer());
    assert_eq!(0, bag.depth());
    assert!(!bag.pop_layer());
    assert_eq!(None, bag.get(1));
}

#[test]
fn request_attempts_count_up_by_one() {
    let mut cfg: ConfigBag<ConfigValue> = ConfigBag::new();
    let counter = RequestAttemptsInterceptor::new();
    let ctx: InterceptorContext<(), ()> = InterceptorContext::new(());
    assert_eq!(0, attempts(&cfg));
    for n in 1..=5 {
        counter.read_before_attempt(&ctx, &mut cfg);
        assert_eq!(n, attempts(&cfg));
    }
    cfg.put(99, ConfigValue::Custom(3));
    assert_eq!(5, attempts(&cfg));
}

#[test]
fn count_written_in_pushed_layer_is_gone_after_pop() {
    let mut cfg: ConfigBag<ConfigValue> = ConfigBag::new();
    let counter = RequestAttemptsInterceptor::new();
    let ctx: InterceptorContext<(), ()> = InterceptorContext::new(());
    cfg.put(5, ConfigValue::Custom(8));
    cfg.push_layer();
    counter.read_before_attempt(&ctx, &mut cfg);
    assert_eq!(1, attempts(&cfg));
    assert!(matches!(cfg.get(5), Some(ConfigValue::Custom(8))));
    assert!(cfg.pop_layer());
    assert!(cfg.get(REQUEST_ATTEMPTS_KEY).is_none());
    counter.read_before_attempt(&ctx, &mut cfg);
    cfg.push_layer();
    counter.read_before_attempt(&ctx, &mut cfg);
    assert_eq!(2, attempts(&cfg));
    assert!(cfg.pop_layer());
    assert_eq!(1, attempts(&cfg));
}
