use ownership::advanced::{AdvancedFnClosure, AdvancedTypes, Human, Macros, Meters, Millimeters,
    Pilot, Point, UnsafeRust, Wizard};
use ownership::basics::{ControlFlow, DataTypes, Functions, VarMutability, ONE_HOUR_IN_SECONDS};
use ownership::collections::{HashMaps, Strings, Vectors};
use ownership::enums::{Coin, DefineEnum, IpAddr, MatchControlFlow, UsState};
use ownership::errors::Results;
use ownership::functional::{Inventory, ShirtColor};
use ownership::generics_notes::{GenPoint, Generics, Lifetimes, NewsArticle, Summary, Traits,
    Tweet};
use ownership::ownership_notes::{FixOwnershipError, Ownership, ReferenceBorrow, SliceType};
use ownership::pointers::{CustomSmartPointer, MyBox, PointersToHeap};
use ownership::structs::{DefineInstantiate, Rectangle, Rectangle2};
use ownership::widgets::{Button, DynTraits, Screen2, Widget};

#[test]
fn basics_formulas() {
    assert_eq!(ONE_HOUR_IN_SECONDS, 3600);
    assert_eq!(VarMutability::seconds_in(3), 10800);
    assert_eq!(VarMutability::shadowed(), (12, 6));
    assert_eq!(DataTypes::tuple_mutation(), (0, 7));
    assert_eq!(DataTypes::array_repeat_first(), 3);
    assert_eq!(Functions::five(), 5);
    assert_eq!(Functions::plus_one(5), 6);
    assert_eq!(Functions::block_expression(), 4);
}

#[test]
fn control_flow_results() {
    assert_eq!(ControlFlow::if_value(true), 5);
    assert_eq!(ControlFlow::if_value(false), 6);
    assert_eq!(ControlFlow::loop_result(), 20);
    assert_eq!(ControlFlow::divisibility(3), 3);
    assert_eq!(ControlFlow::divisibility(8), 4);
    assert_eq!(ControlFlow::divisibility(6), 3);
    assert_eq!(ControlFlow::divisibility(10), 2);
    assert_eq!(ControlFlow::divisibility(7), 1);
}

#[test]
fn ownership_and_borrowing() {
    assert_eq!(Ownership::add_suffix(String::from("Ferris")), "Ferris Jr.");
    let hello = String::from("Hello");
    let world = String::from("world");
    assert_eq!(ReferenceBorrow::greet(&hello, &world), "Hello world!");
    let mut v = vec![1, 2, 3];
    ReferenceBorrow::increment_third(&mut v);
    assert_eq!(v, vec![1, 2, 4]);
    assert_eq!(FixOwnershipError::return_a_string(), "Hello world");
    let mut slot = String::new();
    FixOwnershipError::fill_string(&mut slot);
    assert_eq!(slot, "Hello world");
}

#[test]
fn first_word_ends_at_first_space() {
    let bytes: Vec<u8> = b"hello world".to_vec();
    assert_eq!(SliceType::first_word_end(&bytes), 5);
    let no_space: Vec<u8> = b"hello".to_vec();
    assert_eq!(SliceType::first_word_end(&no_space), 5);
    let empty: Vec<u8> = Vec::new();
    assert_eq!(SliceType::first_word_end(&empty), 0);
}

#[test]
fn struct_notes() {
    let u = DefineInstantiate::build_user("someone@example.com".into(), "someusername123".into());
    assert!(u.active);
    assert_eq!(u.username, "someusername123");
    assert_eq!(u.email, "someone@example.com");
    assert_eq!(u.sign_in_count, 1);
}

#[test]
fn rectangle_methods() {
    let rect1 = Rectangle { width: 30, height: 50 };
    let rect2 = Rectangle { width: 10, height: 40 };
    let rect3 = Rectangle { width: 60, height: 45 };
    assert_eq!(rect1.area(), 1500);
    assert!(rect1.width());
    assert!(rect1.can_hold(&rect2));
    assert!(!rect1.can_hold(&rect3));
    let sq = Rectangle::square(9);
    assert_eq!((sq.width, sq.height), (9, 9));
    let mut rect4 = Rectangle { width: 0, height: 1 };
    rect4.set_width(77);
    assert_eq!(rect4.width, 77);
    let max_rect = rect1.max(rect2);
    assert_eq!((max_rect.width, max_rect.height), (30, 50));
    let mut r1 = Rectangle2 { width: 9, height: 9 };
    let r2 = Rectangle2 { width: 11, height: 11 };
    r1.set_to_max(r2);
    assert_eq!((r1.width, r1.height), (11, 11));
    assert_eq!((r2.width, r2.height), (11, 11));
}

#[test]
fn enum_notes() {
    match DefineEnum::home() {
        IpAddr::V4(a, b, c, d) => assert_eq!((a, b, c, d), (127, 0, 0, 1)),
        IpAddr::V6(_) => panic!("home is four octets"),
    }
    match DefineEnum::loopback() {
        IpAddr::V6(s) => assert_eq!(s, "::1"),
        IpAddr::V4(..) => panic!("loopback is textual"),
    }
    assert_eq!(MatchControlFlow::value_in_cents(Coin::Penny), 1);
    assert_eq!(MatchControlFlow::value_in_cents(Coin::Nickel), 5);
    assert_eq!(MatchControlFlow::value_in_cents(Coin::Dime), 10);
    assert_eq!(MatchControlFlow::value_in_cents(Coin::Quarter(UsState::Alabama)), 25);
    assert_eq!(MatchControlFlow::plus_one(Some(5)), Some(6));
    assert_eq!(MatchControlFlow::plus_one(None), None);
    let mut count = 0;
    MatchControlFlow::match_coin(&Coin::Quarter(UsState::Alaska), &mut count);
    MatchControlFlow::match_coin(&Coin::Penny, &mut count);
    assert_eq!(count, 1);
}

#[test]
fn collection_notes() {
    let v = vec![1, 2, 3];
    assert_eq!(Vectors::third(&v), Some(3));
    assert_eq!(Vectors::third(&vec![1]), None);
    let mut w = vec![1, 2, 3];
    Vectors::increment_all(&mut w);
    assert_eq!(w, vec![2, 3, 4]);
    assert_eq!(Strings::build_greeting(), "Hello, world!");
    let scores = HashMaps::initial_scores(10, 50);
    assert_eq!(HashMaps::score_of(&scores, 0), 10);
    assert_eq!(HashMaps::score_of(&scores, 1), 50);
    assert_eq!(HashMaps::score_of(&scores, 2), 0);
}

#[test]
fn error_notes() {
    assert_eq!(Results::checked_div(10, 3), Ok(3));
    assert_eq!(Results::checked_div(10, 0), Err(()));
    assert_eq!(Results::sum_of_halves(10, 7), Ok(8));
}

#[test]
fn giveaway_prefers_the_user_then_the_stock() {
    let store = Inventory { shirts: vec![ShirtColor::Blue, ShirtColor::Red, ShirtColor::Blue] };
    assert_eq!(store.giveaway(Some(ShirtColor::Red)), ShirtColor::Red);
    assert_eq!(store.giveaway(None), ShirtColor::Blue);
    assert_eq!(store.most_stocked(), ShirtColor::Blue);
    let red_store = Inventory { shirts: vec![ShirtColor::Red, ShirtColor::Red, ShirtColor::Blue] };
    assert_eq!(red_store.most_stocked(), ShirtColor::Red);
    let empty = Inventory { shirts: Vec::new() };
    assert_eq!(empty.most_stocked(), ShirtColor::Blue);
}

#[test]
fn generics_and_lifetimes() {
    let number_list = vec![34, 50, 25, 100, 65];
    assert_eq!(Generics::largest(&number_list), 100);
    assert_eq!(Generics::largest(&vec![7]), 7);
    let p = GenPoint { x: 5, y: 10 };
    assert_eq!(*p.x(), 5);
    assert_eq!(Lifetimes::longest("long string is long", "xyz"), "long string is long");
    assert_eq!(Lifetimes::longest("a", "xyz"), "xyz");
    assert_eq!(Lifetimes::longest("ab", "xy"), "xy");
}

#[test]
fn summaries() {
    let tweet = Tweet {
        username: String::from("horse_ebooks"),
        content: String::from("of course, as you probably already know, people"),
        reply: false,
        retweet: false,
    };
    assert_eq!(
        tweet.summarize(),
        "horse_ebooks: of course, as you probably already know, people"
    );
    let article = NewsArticle {
        headline: String::from("Penguins win the Stanley Cup Championship!"),
        location: String::from("Pittsburgh, PA, USA"),
        author: String::from("Iceburgh"),
        content: String::from("The Pittsburgh Penguins once again are the best hockey team in the NHL."),
    };
    assert_eq!(
        article.summarize(),
        "Penguins win the Stanley Cup Championship!, by Iceburgh (Pittsburgh, PA, USA)"
    );
    assert_eq!(
        Traits::notify(&tweet),
        "Breaking news! horse_ebooks: of course, as you probably already know, people"
    );
}

#[test]
fn name_with_title() {
    let mut name = vec![String::from("Ferris"), String::from("Jr.")];
    let full = FixOwnershipError::stringify_name_with_title(&mut name);
    assert_eq!(full, "Ferris Jr. Esq.");
    assert_eq!(name, vec!["Ferris", "Jr.", "Esq."]);

    let mut empty: Vec<String> = Vec::new();
    let only_title = FixOwnershipError::stringify_name_with_title(&mut empty);
    assert_eq!(only_title, "Esq.");
}

#[test]
fn pointer_notes() {
    assert_eq!(PointersToHeap::boxed_five().into_inner(), 5);
    let b = MyBox::new(5);
    assert_eq!(*b.get(), 5);
    let c = CustomSmartPointer::new(String::from("stuff c"));
    assert_eq!(c.data, "stuff c");
}

#[test]
fn widget_notes() {
    let screen = DynTraits::sample_screen();
    assert_eq!(screen.components.len(), 2);
    match &screen.components[0] {
        Widget::SelectBox(s) => assert_eq!(s.options.len(), 3),
        Widget::Button(_) => panic!("first component is the select box"),
    }
    screen.run();
    let screen2 = Screen2 {
        components: vec![Button { width: 50, height: 10, label: String::from("OK") }],
    };
    screen2.run();
}

#[test]
fn advanced_notes() {
    let sum = Point { x: 1, y: 0 }.add(Point { x: 2, y: 3 });
    assert_eq!(sum, Point { x: 3, y: 3 });
    let len = Millimeters(500).add(Meters(2));
    assert_eq!(len.0, 2500);
    let person = Human {};
    assert_eq!(Pilot::title(&person), "Captain");
    assert_eq!(Wizard::title(&person), "Master");
    assert_eq!(Human::name(), "Mr");
    assert_eq!(AdvancedFnClosure::add_one(5), 6);
    assert_eq!(AdvancedFnClosure::do_twice_add_one(5), 12);
    assert_eq!(AdvancedTypes::add_distances(5, 5), 10);
    assert_eq!(Macros::vec_of_three(), vec![1, 2, 3]);
    let mut counter: u32 = 0;
    UnsafeRust::add_to_count(&mut counter, 3);
    assert_eq!(counter, 3);
    assert_eq!(UnsafeRust::abs(-3), 3);
    assert_eq!(UnsafeRust::abs(3), 3);
}
