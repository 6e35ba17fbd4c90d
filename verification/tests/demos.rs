use rust_notes::closures::apply_at_three;
use rust_notes::closures::apply_at_two;
use rust_notes::closures::increment;
use rust_notes::closures::returns_closure;
use rust_notes::counter::Counter;
use rust_notes::demo_traits::Arm;
use rust_notes::demo_traits::BarStruct;
use rust_notes::demo_traits::Check;
use rust_notes::demo_traits::FooAssociated;
use rust_notes::demo_traits::FooGeneric;
use rust_notes::demo_traits::Human;
use rust_notes::demo_traits::Leg;
use rust_notes::demo_traits::MeasuredBox;
use rust_notes::demo_traits::ShowStuff;
use rust_notes::demo_traits::TextShow;
use rust_notes::demo_traits::Winner;
use rust_notes::digits::i32_to_string;
use rust_notes::digits::u32_to_string;
use rust_notes::hello_macro::HelloMacro;
use rust_notes::numbers::abs_i32;
use rust_notes::split::split_in_two;
use rust_notes::vec_new::vec_new_from;
use rust_notes::vec_new::vec_new_three;
use rust_notes::wrapper::Wrapper;

#[test]
fn abs_of_negative_three() {
    assert_eq!(abs_i32(-3), 3);
}

#[test]
fn abs_of_nonnegatives() {
    assert_eq!(abs_i32(0), 0);
    assert_eq!(abs_i32(5), 5);
    assert_eq!(abs_i32(i32::MAX), i32::MAX);
}

#[test]
fn abs_of_most_negative_allowed() {
    assert_eq!(abs_i32(i32::MIN + 1), i32::MAX);
}

#[test]
fn split_five_at_three() {
    let v = vec![1, 2, 3, 4, 5];
    let (first, second) = split_in_two(&v, 3);
    assert_eq!(first, vec![1, 2, 3]);
    assert_eq!(second, vec![4, 5]);
}

#[test]
fn split_at_ends() {
    let v = vec![7, 8];
    let (first, second) = split_in_two(&v, 0);
    assert_eq!(first, Vec::<i32>::new());
    assert_eq!(second, vec![7, 8]);
    let (first, second) = split_in_two(&v, 2);
    assert_eq!(first, vec![7, 8]);
    assert_eq!(second, Vec::<i32>::new());
}

#[test]
fn counter_counts_up() {
    let mut counter = Counter::new();
    assert_eq!(counter.current(), 0);
    counter.increment();
    assert_eq!(counter.current(), 1);
    counter.increment();
    counter.increment();
    assert_eq!(counter.current(), 3);
}

#[test]
fn associated_and_generic_dispatch() {
    let mut bar = BarStruct;
    assert_eq!(bar.foo_associated(), Some(3));
    assert_eq!(<BarStruct as FooGeneric<u32>>::foo_generic(&mut bar), Some(5));
    assert_eq!(
        <BarStruct as FooGeneric<String>>::foo_generic(&mut bar),
        Some("generic".to_string())
    );
}

#[test]
fn win_hands_the_number_back() {
    let check = Check;
    assert_eq!(check.win(4), 4);
}

#[test]
fn pain_reports_by_qualified_calls() {
    let human = Human;
    assert_eq!(human.pain(), "Overall I feel good");
    assert_eq!(Arm::pain(&human), "My arm feels good");
    assert_eq!(Leg::pain(&human), "My leg is a little sore");
    assert_eq!(<Human as Leg>::pain(&human), "My leg is a little sore");
}

#[test]
fn show_stuff_renders_the_length() {
    let my_box = MeasuredBox { len: 12 };
    assert_eq!(my_box.show_stuff(), "running show_stuff() 12");
    assert_eq!(my_box.to_text(), "12");
}

#[test]
fn decimal_renderings() {
    assert_eq!(u32_to_string(0), "0");
    assert_eq!(u32_to_string(10), "10");
    assert_eq!(u32_to_string(4294967295), "4294967295");
    assert_eq!(i32_to_string(-7), "-7");
    assert_eq!(i32_to_string(i32::MIN), "-2147483648");
    assert_eq!(i32_to_string(i32::MAX), "2147483647");
}

#[test]
fn wrapper_renders_joined_list() {
    let w = Wrapper(vec!["hello".to_string(), "world".to_string()]);
    assert_eq!(w.render(), "[hello, world]");
}

#[test]
fn wrapper_renders_edge_shapes() {
    assert_eq!(Wrapper(Vec::new()).render(), "[]");
    assert_eq!(Wrapper(vec!["solo".to_string()]).render(), "[solo]");
}

#[test]
fn closures_and_function_values() {
    let capture = 1;
    let close = |i: u32| i + capture;
    assert_eq!(apply_at_two(&close), 3);
    assert_eq!(apply_at_two(&increment), 3);
    assert_eq!(apply_at_three(increment), 4);
}

#[test]
fn returned_closure_adds_one() {
    let returned_value = returns_closure();
    assert_eq!(returned_value(2), 3);
}

#[test]
fn vec_building() {
    assert_eq!(vec_new_three(1, 2, 3), vec![1, 2, 3]);
    let v = vec![4, 5, 6];
    assert_eq!(vec_new_from(&v), v);
}

struct TheNamedStruct;

impl HelloMacro for TheNamedStruct {
    fn hello_macro() {
        println!("Hello, Macro! My name is TheNamedStruct!");
    }
}

#[test]
fn hello_macro_is_called_on_the_type() {
    TheNamedStruct::hello_macro();
}
