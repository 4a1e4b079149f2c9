//! Singly linked lists.
//!
//! The trees of this library hold their children in lists rather than in
//! vectors, so that a tree is a plain datatype all the way down and two trees
//! are equal exactly when they are built alike. A spec function can build
//! such a tree, which it cannot with a vector inside: so what a function
//! returns can be stated as a tree, and not only up to the contents of its
//! vectors.

use vstd::prelude::*;

verus! {

/// A count as a machine number: itself, or the largest number there is.
pub open spec fn counted(n: nat) -> usize {
    if n <= usize::MAX {
        n as usize
    } else {
        usize::MAX
    }
}

/// A list: empty, or a first item and the rest.
#[derive(Debug, PartialEq, Eq)]
pub enum List<T> {
    Nil,
    Cons(Box<T>, Box<List<T>>),
}

impl<T> List<T> {
    /// The items of the list, in order.
    pub open spec fn seq(self) -> Seq<T>
        decreases self,
    {
        match self {
            List::Nil => Seq::empty(),
            List::Cons(head, tail) => seq![*head].add(tail.seq()),
        }
    }

    /// The number of items.
    pub open spec fn length(self) -> nat
        decreases self,
    {
        match self {
            List::Nil => 0,
            List::Cons(_, tail) => 1 + tail.length(),
        }
    }

    /// The list with `item` put behind its last item.
    pub open spec fn with_last(self, item: T) -> List<T>
        decreases self,
    {
        match self {
            List::Nil => List::Cons(Box::new(item), Box::new(List::Nil)),
            List::Cons(head, tail) => List::Cons(head, Box::new(tail.with_last(item))),
        }
    }

    /// The items of `self` and then those of `other`.
    pub open spec fn followed_by(self, other: List<T>) -> List<T>
        decreases self,
    {
        match self {
            List::Nil => other,
            List::Cons(head, tail) => List::Cons(head, Box::new(tail.followed_by(other))),
        }
    }

    /// The list that holds the items of `items` in the same order.
    pub open spec fn of(items: Seq<T>) -> List<T>
        decreases items.len(),
    {
        if items.len() == 0 {
            List::Nil
        } else {
            List::of(items.drop_last()).with_last(items.last())
        }
    }

    /// The empty list.
    pub fn new() -> (list: List<T>)
        ensures
            list == List::<T>::Nil,
    {
        List::Nil
    }

    /// The list that starts with `head` and goes on with `tail`.
    pub fn cons(head: T, tail: List<T>) -> (list: List<T>)
        ensures
            list == List::Cons(Box::new(head), Box::new(tail)),
    {
        List::Cons(Box::new(head), Box::new(tail))
    }

    pub fn is_empty(&self) -> (empty: bool)
        ensures
            empty == (*self is Nil),
            empty == (self.length() == 0),
    {
        matches!(self, List::Nil)
    }

    /// The number of items, or `usize::MAX` where there are more than that.
    pub fn len(&self) -> (n: usize)
        ensures
            n == counted(self.length()),
        decreases self,
    {
        match self {
            List::Nil => 0,
            List::Cons(_, tail) => {
                let rest: usize = tail.len();
                if rest < usize::MAX {
                    rest + 1
                } else {
                    usize::MAX
                }
            },
        }
    }

    /// Puts `item` behind the last item.
    pub fn push(self, item: T) -> (list: List<T>)
        ensures
            list == self.with_last(item),
        decreases self,
    {
        match self {
            List::Nil => List::Cons(Box::new(item), Box::new(List::Nil)),
            List::Cons(head, tail) => List::Cons(head, Box::new(tail.push(item))),
        }
    }

    /// Puts the items of `other` behind those of `self`.
    pub fn append(self, other: List<T>) -> (list: List<T>)
        ensures
            list == self.followed_by(other),
        decreases self,
    {
        match self {
            List::Nil => other,
            List::Cons(head, tail) => List::Cons(head, Box::new(tail.append(other))),
        }
    }

    /// The list of the items of a vector, in the same order.
    pub fn from_vec(items: Vec<T>) -> (list: List<T>)
        ensures
            list.seq() == items@,
            list == List::of(items@),
    {
        let mut items = items;
        let mut list: List<T> = List::Nil;
        let ghost all = items@;
        while items.len() > 0
            invariant
                items@.add(list.seq()) == all,
            decreases items.len(),
        {
            let ghost before = items@;
            let ghost rest = list.seq();
            let last = items.pop().unwrap();
            list = List::Cons(Box::new(last), Box::new(list));
            assert(items@.add(list.seq()) == all) by {
                assert(before == items@.push(last));
                assert(list.seq() == seq![last].add(rest));
                assert(items@.push(last).add(rest) =~= items@.add(seq![last].add(rest)));
            }
        }
        assert(items@.add(list.seq()) =~= list.seq());
        proof {
            of_then_seq(all);
            same_items_same_list(list, List::of(all));
        }
        list
    }
}

/// Tells whether two lists have the same number of items.
pub fn same_length<A, B>(first: &List<A>, second: &List<B>) -> (same: bool)
    ensures
        same == (first.length() == second.length()),
    decreases first,
{
    match first {
        List::Nil => second.is_empty(),
        List::Cons(_, rest) => match second {
            List::Nil => false,
            List::Cons(_, others) => same_length(rest, others),
        },
    }
}

/// The length of a list is the length of the sequence of its items.
pub proof fn length_is_seq_len<T>(list: List<T>)
    ensures
        list.seq().len() == list.length(),
    decreases list,
{
    match list {
        List::Nil => {},
        List::Cons(_, tail) => length_is_seq_len(*tail),
    }
}

/// Putting an item behind the last one appends it to the sequence of items.
pub proof fn with_last_is_push<T>(list: List<T>, item: T)
    ensures
        list.with_last(item).seq() == list.seq().push(item),
    decreases list,
{
    match list {
        List::Nil => {
            assert(seq![item].add(Seq::<T>::empty()) =~= Seq::<T>::empty().push(item));
        },
        List::Cons(head, tail) => {
            with_last_is_push(*tail, item);
            assert(seq![*head].add(tail.seq().push(item)) =~= seq![*head].add(tail.seq()).push(item));
        },
    }
}

/// Lists put one behind the other hold the items of both, in order.
pub proof fn followed_by_is_add<T>(first: List<T>, second: List<T>)
    ensures
        first.followed_by(second).seq() == first.seq().add(second.seq()),
        first.followed_by(second).length() == first.length() + second.length(),
    decreases first,
{
    match first {
        List::Nil => {
            assert(Seq::<T>::empty().add(second.seq()) =~= second.seq());
        },
        List::Cons(head, tail) => {
            followed_by_is_add(*tail, second);
            assert(seq![*head].add(tail.seq().add(second.seq())) =~= seq![*head].add(
                tail.seq(),
            ).add(second.seq()));
        },
    }
}

/// Two lists that hold the same items in the same order are the same list.
pub proof fn same_items_same_list<T>(first: List<T>, second: List<T>)
    requires
        first.seq() == second.seq(),
    ensures
        first == second,
    decreases first,
{
    length_is_seq_len(first);
    length_is_seq_len(second);
    match (first, second) {
        (List::Cons(a, rest), List::Cons(b, others)) => {
            assert(first.seq()[0] == *a);
            assert(second.seq()[0] == *b);
            assert(rest.seq() =~= first.seq().skip(1));
            assert(others.seq() =~= second.seq().skip(1));
            same_items_same_list(*rest, *others);
        },
        _ => {},
    }
}

/// A list made of a sequence holds that sequence.
pub proof fn of_then_seq<T>(items: Seq<T>)
    ensures
        List::of(items).seq() == items,
    decreases items.len(),
{
    if items.len() == 0 {
        assert(items =~= Seq::<T>::empty());
    } else {
        of_then_seq(items.drop_last());
        with_last_is_push(List::of(items.drop_last()), items.last());
        assert(items.drop_last().push(items.last()) =~= items);
    }
}

} // verus!
