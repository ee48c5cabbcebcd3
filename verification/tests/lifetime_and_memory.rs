use rust_tour::lifetime_and_memory::greet;
use rust_tour::lifetime_and_memory::introduce;
use rust_tour::lifetime_and_memory::AtomicPerson;
use rust_tour::lifetime_and_memory::Company;
use rust_tour::lifetime_and_memory::Guest;
use rust_tour::lifetime_and_memory::Person;
use rust_tour::lifetime_and_memory::SharedPerson;
use std::rc::Rc;
use std::sync::Arc;
use std::sync::Mutex;

#[test]
fn get_ref_name_lends_the_name() {
    let p = Person { name: String::from("PERSON") };
    let n: &String = p.get_ref_name();
    assert_eq!(n, "PERSON");
    assert!(std::ptr::eq(n, &p.name));
}

#[test]
fn a_company_borrows_its_boss() {
    let elon = Person { name: String::from("Elon Musk") };
    let tesla = Company { name: String::from("Tesla"), boss: &elon };
    assert_eq!(tesla.name, "Tesla");
    assert_eq!(tesla.boss.get_ref_name(), "Elon Musk");
}

#[test]
fn a_guest_talks() {
    let isaac = Guest { name: "Isaac" };
    assert_eq!(isaac.talk(), "Hi, name is Isaac!");
}

#[test]
fn a_guest_may_borrow_a_name_that_lives_shorter_than_the_program() {
    let name = String::from("Ada");
    let ada = Guest { name: &name };
    assert_eq!(ada.talk(), "Hi, name is Ada!");
}

#[test]
fn a_shared_person_greets_and_shares_the_name() {
    let name = Rc::new(String::from("Isaac"));
    assert_eq!(Rc::strong_count(&name), 1);
    {
        let isaac = SharedPerson::new(name.clone());
        assert_eq!(isaac.greet(), "Hello, I'm Isaac");
        assert!(Rc::ptr_eq(&isaac.name, &name));
        assert_eq!(Rc::strong_count(&name), 2);
    }
    assert_eq!(Rc::strong_count(&name), 1);
    assert_eq!(*name, "Isaac");
}

#[test]
fn an_atomic_person_greets_and_shares_the_name() {
    let name = Arc::new(String::from("Isaac"));
    let isaac = AtomicPerson::new(name.clone());
    assert_eq!(isaac.greet(), "Hello, I'm Isaac");
    assert!(Arc::ptr_eq(&isaac.name, &name));
    assert_eq!(Arc::strong_count(&name), 2);
}

#[test]
fn introduce_builds_the_sentence() {
    assert_eq!(
        introduce("Isaac", "\"happy\""),
        "Hello, I'm Isaac and I'm currently feeling \"happy\"!"
    );
    assert_eq!(introduce("", ""), "Hello, I'm  and I'm currently feeling !");
}

#[test]
fn greet_tells_the_old_mood_in_quotes_and_leaves_the_new_one() {
    let mut mood = String::from("happy");
    let (first, second) = greet("Isaac", &mut mood);
    assert_eq!(first, "Hello, I'm Isaac and I'm currently feeling \"happy\"!");
    assert_eq!(second, "But now that I've met you, I'm feeling excited!");
    assert_eq!(mood, "excited");
}

#[test]
fn greet_escapes_the_old_mood_as_debug_does() {
    let mut mood = String::from("so \"so\"\n");
    let old = mood.clone();
    let (first, _) = greet("Isaac", &mut mood);
    assert_eq!(first, format!("Hello, I'm Isaac and I'm currently feeling {:?}!", old));
    assert_eq!(first, "Hello, I'm Isaac and I'm currently feeling \"so \\\"so\\\"\\n\"!");
    assert_eq!(mood, "excited");
}

#[test]
fn greet_twice_finds_the_mood_it_left() {
    let mut mood = String::from("happy");
    greet("Isaac", &mut mood);
    let (first, second) = greet("Isaac", &mut mood);
    assert_eq!(first, "Hello, I'm Isaac and I'm currently feeling \"excited\"!");
    assert_eq!(second, "But now that I've met you, I'm feeling excited!");
    assert_eq!(mood, "excited");
}

#[test]
fn greet_under_a_lock() {
    let name = Arc::new(String::from("Isaac"));
    let mood = Arc::new(Mutex::new(String::from("happy")));
    let (first, second) = {
        let mut guard = mood.lock().unwrap();
        greet(&name, &mut guard)
    };
    assert_eq!(first, "Hello, I'm Isaac and I'm currently feeling \"happy\"!");
    assert_eq!(second, "But now that I've met you, I'm feeling excited!");
    assert_eq!(mood.lock().unwrap().as_str(), "excited");
}
