use flappy::basics::{apply_function, double, factorial, modify_string, multiply, square};
use flappy::blog::{format_post, Comment, Post};
use flappy::collections::Person;
use flappy::generics::{is_equal, sum, Counter, MyOption, Pair, Stack};
use flappy::outer_module::call_outer_function;
use flappy::ownership::{calculate_length, change_string, first_word, give_ownership, longest};
use flappy::structures::{Article, PublicStruct, Rectangle, User};
use flappy::visibility::test_visibility;
use flappy::web_errors::MyErrorNew;

#[test]
fn arithmetic_helpers() {
    assert_eq!(multiply(4, 6), 24);
    assert_eq!(square(-9), 81);
    assert_eq!(double(21), 42);
    assert_eq!(factorial(0), 1);
    assert_eq!(factorial(1), 1);
    assert_eq!(factorial(5), 120);
    assert_eq!(factorial(12), 479001600);
}

#[test]
fn higher_order_application() {
    assert_eq!(apply_function(10, double), 20);
    assert_eq!(apply_function(10, square), 100);
}

#[test]
fn string_helpers() {
    let mut s = String::from("Hello");
    modify_string(&mut s);
    assert_eq!(s, "Hello, World!");

    let mut s = String::from("hello");
    change_string(&mut s);
    assert_eq!(s, "hello, world");

    assert_eq!(give_ownership(), "hello from give_ownership");
    assert_eq!(calculate_length(&String::from("hello")), 5);
}

#[test]
fn first_word_stops_at_space() {
    assert_eq!(first_word("hello world"), "hello");
    assert_eq!(first_word("hello"), "hello");
    assert_eq!(first_word(" leading"), "");
    assert_eq!(first_word(""), "");
}

#[test]
fn longest_prefers_longer() {
    assert_eq!(longest("abcd", "xy"), "abcd");
    assert_eq!(longest("ab", "wxyz"), "wxyz");
    assert_eq!(longest("ab", "xy"), "xy");
}

#[test]
fn user_accounts() {
    let mut u = User::new_user(String::from("david"), String::from("david@example.com"));
    assert!(u.active);
    assert_eq!(u.sign_in_count, 1);
    assert_eq!(u.get_email().as_str(), "david@example.com");
    u.update_email(String::from("new@example.com"));
    assert_eq!(u.get_email().as_str(), "new@example.com");

    let v = User::new_inactive_user(String::from("eve"), String::from("eve@example.com"));
    assert!(!v.active);
    assert_eq!(v.sign_in_count, 0);
}

#[test]
fn public_struct_private_field() {
    let mut s = PublicStruct::new();
    assert_eq!(s.public_field, 0);
    assert_eq!(s.get_private(), 10);
    s.set_private(30);
    s.public_field = 20;
    assert_eq!(s.get_private(), 30);
    assert_eq!(s.public_field, 20);

    let p = flappy::packages::PublicStruct::new(10, 20);
    assert_eq!(p.public_field, 10);
    assert_eq!(p.access_private_field(), 20);
}

#[test]
fn articles_and_rectangles() {
    let a = Article {
        title: String::from("T"),
        content: String::from("C"),
        author: String::from("A"),
    };
    assert_eq!(a.get_title(), "T");
    assert_eq!(a.take_title(), "T");

    let rect1 = Rectangle { width: 30, height: 50 };
    let rect2 = Rectangle { width: 10, height: 40 };
    let rect3 = Rectangle { width: 60, height: 45 };
    assert_eq!(rect1.area(), 1500);
    assert!(rect1.can_hold(&rect2));
    assert!(!rect1.can_hold(&rect3));
    assert_eq!(Rectangle::square(20).area(), 400);
}

#[test]
fn person_as_key() {
    let p = Person::new("alice", 30);
    let q = Person::new("alice", 30);
    assert_eq!(p, q);
    assert_ne!(p, Person::new("alice", 31));
}

#[test]
fn generic_helpers() {
    assert!(is_equal(3, 3));
    assert!(!is_equal(3, 4));
    assert!(is_equal("a", "a"));

    let pair = Pair::new(1, true);
    assert_eq!(*pair.first(), 1);
    assert!(*pair.second());

    let m: MyOption<i32> = MyOption::Filled(42);
    assert!(m.is_some());
    assert_eq!(m.unwrap(), 42);
    let n: MyOption<i32> = MyOption::Vacant;
    assert!(!n.is_some());

    assert_eq!(sum(3u8, 4u8), 7);
    assert_eq!(sum(-3i16, 4i16), 1);
}

#[test]
fn counter_counts_to_five() {
    let mut c = Counter::new();
    let mut seen = Vec::new();
    while let Some(v) = c.next() {
        seen.push(v);
    }
    assert_eq!(seen, vec![1, 2, 3, 4, 5]);
    assert_eq!(c.next(), None);
}

#[test]
fn stack_is_last_in_first_out() {
    let mut s: Stack<i32> = Stack::new();
    assert!(s.is_empty());
    assert_eq!(s.size(), 0);
    assert_eq!(s.pop(), None);
    s.push(1);
    s.push(2);
    s.push(3);
    assert_eq!(s.size(), 3);
    assert_eq!(s.peek(), Some(&3));
    assert_eq!(s.pop(), Some(3));
    assert_eq!(s.pop(), Some(2));
    assert_eq!(s.pop(), Some(1));
    assert!(s.is_empty());
}

#[test]
fn blog_formatting() {
    let post = Post::new("Rust", "Body text", "Author");
    assert_eq!(format_post(&post), "Title: Rust\nAuthor: Author\n\nBody text");
    let comment = Comment::new("Nice", "Reader");
    assert_eq!(comment.content, "Nice");
    assert_eq!(comment.author, "Reader");
}

#[test]
fn error_responses() {
    let db = MyErrorNew::DbError(String::from("连接超时"));
    assert_eq!(db.error_response(), "数据库错误: 连接超时");
    assert_eq!(db.status_code(), 500);
    let actix = MyErrorNew::ActixError(String::from("boom"));
    assert_eq!(actix.error_response(), "框架错误: boom");
    assert_eq!(actix.status_code(), 500);
    let missing = MyErrorNew::NotFound(String::from("id 7"));
    assert_eq!(missing.error_response(), "资源未找到: id 7");
    assert_eq!(missing.status_code(), 404);
    assert_eq!(missing.to_response().error_message, "资源未找到: id 7");
}

#[test]
fn visibility_functions_run() {
    test_visibility();
    flappy::visibility::public_function();
    assert_eq!(call_outer_function(), "这是外部模块的函数");
}
