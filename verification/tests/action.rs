use spider_core::action::{execute, Action};

#[test]
fn test_execute() {
    let pow = execute(2, |i| i * i);
    assert_eq!(pow, 4);
}

struct Doubler;

impl Action<i32, i32> for Doubler {
    fn execute(&self, t: i32) -> i32 {
        t * 2
    }
}

#[test]
fn action_by_hand() {
    assert_eq!(execute(4, Doubler), 8);
}
