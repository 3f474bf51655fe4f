//! The person record, its accessors, and the report line a host page shows.

use vstd::prelude::*;

use crate::decimal::dec_digits;
use crate::decimal::u32_to_dec;
use crate::escape::escape_name;
use crate::escape::escape_name_str;

verus! {

/// A person record: a name, reached through an accessor pair, and an age
/// field that any holder may read and write directly.
#[derive(Debug)]
pub struct Person {
    name: String,
    pub age: u32,
}

/// The mathematical content of a record: the characters of its name and its
/// age.
pub struct PersonView {
    pub name: Seq<char>,
    pub age: u32,
}

impl View for Person {
    type V = PersonView;

    closed spec fn view(&self) -> PersonView {
        PersonView { name: self.name@, age: self.age }
    }
}

/// The content of a record after a name update: the new name, with
/// everything else kept.
pub open spec fn with_name(v: PersonView, name: Seq<char>) -> PersonView {
    PersonView { name: name, age: v.age }
}

/// The content of a record after an age update: the new age, with the name
/// kept.
pub open spec fn with_age(v: PersonView, age: u32) -> PersonView {
    PersonView { name: v.name, age: age }
}

/// An age update is reflected immediately on read, leaves the name alone,
/// and keeps no history: two updates in a row leave exactly the record that
/// the second alone would leave.
pub proof fn lemma_set_age_direct(v: PersonView, a1: u32, a2: u32)
    ensures
        with_age(with_age(v, a1), a2) == with_age(v, a2),
        with_age(v, a2).age == a2,
        with_age(v, a2).name == v.name,
{
}

/// Last write wins: two name updates in a row leave exactly the record that
/// the second update alone would leave; the updated record reads back the
/// updated name, its age untouched. No history is kept.
pub proof fn lemma_set_name_last_write_wins(v: PersonView, n1: Seq<char>, n2: Seq<char>)
    ensures
        with_name(with_name(v, n1), n2) == with_name(v, n2),
        with_name(v, n2).name == n2,
        with_name(v, n2).age == v.age,
{
}

impl Person {
    /// Returns a copy of the current name.
    pub fn name(&self) -> (r: String)
        ensures
            r@ == self@.name,
    {
        self.name.clone()
    }

    /// Replaces the stored name with the given text, whatever was stored
    /// before; the age is untouched. Empty names are permitted.
    pub fn set_name(&mut self, name: String)
        ensures
            final(self)@.name == name@,
            final(self)@.age == old(self)@.age,
            final(self)@ == with_name(old(self)@, name@),
    {
        self.name = name;
    }

    /// Reads the age field.
    pub fn age(&self) -> (r: u32)
        ensures
            r == self@.age,
    {
        self.age
    }

    /// Writes the age field, whatever it held before; the name is untouched.
    /// Unverified holders may write the public field directly with the same
    /// effect; this is the same write with its contract stated.
    pub fn set_age(&mut self, age: u32)
        ensures
            final(self)@.age == age,
            final(self)@.name == old(self)@.name,
            final(self)@ == with_age(old(self)@, age),
    {
        self.age = age;
    }
}

/// The report line for a record with the given name and age: the record's
/// debug shape behind a fixed tag, the name quoted with its characters
/// escaped as `escape_name` describes.
pub open spec fn report_line(name: Seq<char>, age: u32) -> Seq<char> {
    "PERSON: Person { name: \""@ + escape_name(name) + "\", age: "@ + dec_digits(age as nat)
        + " }"@
}

/// Builds a fresh record carrying the given name and age.
pub fn make_person(name: &str, age: u32) -> (p: Person)
    ensures
        p@.name == name@,
        p@.age == age,
{
    Person { name: name.to_owned(), age }
}

/// Builds a fresh record and the report line that a host page shows for it.
/// The host write itself is the caller's affair: this function only says
/// what text is to be written.
pub fn make_person_with_report(name: &str, age: u32) -> (r: (Person, String))
    ensures
        r.0@.name == name@,
        r.0@.age == age,
        r.1@ == report_line(name@, age),
{
    let p = Person { name: name.to_owned(), age };
    let mut line = String::from_str("PERSON: Person { name: \"");
    let escaped = escape_name_str(p.name.as_str());
    line.append(escaped.as_str());
    line.append("\", age: ");
    let digits = u32_to_dec(age);
    line.append(digits.as_str());
    line.append(" }");
    proof {
        assert(line@ =~= report_line(name@, age));
    }
    (p, line)
}

} // verus!
