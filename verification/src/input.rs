//! The set of keys that are held down, kept as a list without repeats.

use vstd::prelude::*;

verus! {

/// The names of the held keys, each as its sequence of characters.
pub open spec fn names(keys: Seq<String>) -> Seq<Seq<char>> {
    keys.map_values(|k: String| k@)
}

/// The held names after `key` goes down: it joins them unless it is there
/// already.
pub open spec fn pressed(held: Seq<Seq<char>>, key: Seq<char>) -> Seq<Seq<char>> {
    if held.contains(key) {
        held
    } else {
        held.push(key)
    }
}

/// The held names after `key` comes up: its first occurrence is gone, and a
/// name that is not held changes nothing.
pub open spec fn released(held: Seq<Seq<char>>, key: Seq<char>) -> Seq<Seq<char>> {
    held.remove_value(key)
}

/// `key` is one of the two names of the fire key.
pub open spec fn fires(key: Seq<char>) -> bool {
    key == " "@ || key == "Space"@
}

/// A key that steers left is held.
pub open spec fn steers_left(held: Seq<Seq<char>>) -> bool {
    held.contains("ArrowLeft"@) || held.contains("a"@)
}

/// A key that steers right is held.
pub open spec fn steers_right(held: Seq<Seq<char>>) -> bool {
    held.contains("ArrowRight"@) || held.contains("d"@)
}

/// A key that steers up is held.
pub open spec fn steers_up(held: Seq<Seq<char>>) -> bool {
    held.contains("ArrowUp"@) || held.contains("w"@)
}

/// A key that steers down is held.
pub open spec fn steers_down(held: Seq<Seq<char>>) -> bool {
    held.contains("ArrowDown"@) || held.contains("s"@)
}

/// Pressing a key keeps a list without repeats free of repeats.
pub proof fn lemma_pressed_no_duplicates(held: Seq<Seq<char>>, key: Seq<char>)
    requires
        held.no_duplicates(),
    ensures
        pressed(held, key).no_duplicates(),
        pressed(held, key).contains(key),
{
    if !held.contains(key) {
        assert(held.push(key)[held.len() as int] == key);
    }
}

/// Releasing a key keeps a list without repeats free of repeats, and the
/// key is then no longer held.
pub proof fn lemma_released_no_duplicates(held: Seq<Seq<char>>, key: Seq<char>)
    requires
        held.no_duplicates(),
    ensures
        released(held, key).no_duplicates(),
        !released(held, key).contains(key),
{
    held.index_of_first_ensures(key);
}

/// Finds the first place at which `key` is held.
pub fn position(keys: &Vec<String>, key: &String) -> (found: Option<usize>)
    ensures
        match found {
            Some(i) => {
                &&& i < keys.len()
                &&& keys[i as int]@ == key@
                &&& forall|j: int| 0 <= j < i ==> keys[j]@ != key@
                &&& names(keys@).index_of_first(key@) == Some(i as int)
            },
            None => {
                &&& forall|j: int| 0 <= j < keys.len() ==> keys[j]@ != key@
                &&& names(keys@).index_of_first(key@) is None
            },
        },
        found is Some <==> names(keys@).contains(key@),
{
    let ghost held = names(keys@);
    let mut i: usize = 0;
    while i < keys.len()
        invariant
            i <= keys.len(),
            held == names(keys@),
            forall|j: int| 0 <= j < i ==> keys[j]@ != key@,
        decreases keys.len() - i,
    {
        if keys[i] == *key {
            proof {
                assert forall|j: int| 0 <= j < i implies held[j] != key@ by {
                    assert(held[j] == keys[j]@);
                }
                assert(held[i as int] == key@);
                held.index_of_first_ensures(key@);
            }
            return Some(i);
        }
        i += 1;
    }
    proof {
        assert forall|j: int| 0 <= j < held.len() implies held[j] != key@ by {
            assert(held[j] == keys[j]@);
        }
        held.index_of_first_ensures(key@);
    }
    None
}

/// Tests whether no key is held twice.
pub fn has_no_repeats(keys: &Vec<String>) -> (ok: bool)
    ensures
        ok == names(keys@).no_duplicates(),
{
    let ghost held = names(keys@);
    let mut i: usize = 0;
    while i < keys.len()
        invariant
            i <= keys.len(),
            held == names(keys@),
            forall|a: int, b: int| 0 <= a < b < i ==> held[a] != held[b],
        decreases keys.len() - i,
    {
        let mut j: usize = 0;
        while j < i
            invariant
                j <= i < keys.len(),
                held == names(keys@),
                forall|a: int| 0 <= a < j ==> held[a] != held[i as int],
            decreases i - j,
        {
            if keys[j] == keys[i] {
                assert(held[j as int] == held[i as int]);
                return false;
            }
            j += 1;
        }
        i += 1;
    }
    true
}

/// Tests whether `key` is held.
pub fn is_held(keys: &Vec<String>, key: &str) -> (held: bool)
    ensures
        held == names(keys@).contains(key@),
{
    let name: String = key.to_owned();
    position(keys, &name).is_some()
}

/// Registers that `key` went down: it joins the held keys unless it is held
/// already.
pub fn press(keys: &mut Vec<String>, key: String)
    ensures
        names(final(keys)@) == pressed(names(old(keys)@), key@),
{
    if position(keys, &key).is_none() {
        keys.push(key);
    }
}

/// Registers that `key` came up: its first occurrence leaves the held keys.
/// A key that is not held changes nothing.
pub fn release(keys: &mut Vec<String>, key: &String)
    ensures
        names(final(keys)@) == released(names(old(keys)@), key@),
        !names(old(keys)@).contains(key@) ==> final(keys)@ == old(keys)@,
        forall|i: int|
            0 <= i < old(keys).len() && old(keys)[i]@ == key@ && (forall|j: int|
                0 <= j < i ==> old(keys)[j]@ != key@) ==> final(keys)@ == old(keys)@.remove(i),
{
    match position(keys, key) {
        Some(i) => {
            keys.remove(i);
        },
        None => {},
    }
}

/// Tests whether `key` names the fire key.
pub fn is_fire_key(key: &String) -> (fire: bool)
    ensures
        fire == fires(key@),
{
    let space: String = " ".to_owned();
    let word: String = "Space".to_owned();
    *key == space || *key == word
}

} // verus!
