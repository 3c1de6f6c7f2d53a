//! What the market server computes: the orders in a chunk of user input and
//! the messages it sends back.
use vstd::prelude::*;
use vstd::string::{StrSliceExecFns, StringExecFns};

use crate::order::{Order, UserId, is_order_line, order_text, order_user};
use crate::transaction::{Product, Transaction, product_name};

verus! {

/// Splits `s` at each line feed: the lines ended so far and the text after
/// the last line feed.
pub open spec fn split_lines(s: Seq<char>) -> (Seq<Seq<char>>, Seq<char>)
    decreases s.len(),
{
    if s.len() == 0 {
        (Seq::empty(), Seq::empty())
    } else {
        let prev = split_lines(s.drop_last());
        if s.last() == '\n' {
            (prev.0.push(prev.1), Seq::empty())
        } else {
            (prev.0, prev.1.push(s.last()))
        }
    }
}

/// The lines of `s`: split at line feeds, with no empty line after a final
/// line feed.
pub open spec fn lines(s: Seq<char>) -> Seq<Seq<char>> {
    let (done, rest) = split_lines(s);
    if rest.len() == 0 {
        done
    } else {
        done.push(rest)
    }
}

/// A line without its carriage return, if it ends in one.
pub open spec fn strip_cr(l: Seq<char>) -> Seq<char> {
    if l.len() > 0 && l.last() == '\r' {
        l.drop_last()
    } else {
        l
    }
}

/// `os` are the orders that user `user` placed in `ls`, in order: one for
/// each line that is an order, none for the other lines.
pub open spec fn orders_of_lines(user: UserId, ls: Seq<Seq<char>>, os: Seq<Order>) -> bool
    decreases ls.len(),
{
    if ls.len() == 0 {
        os.len() == 0
    } else if is_order_line(strip_cr(ls.last())) {
        &&& os.len() > 0
        &&& order_text(os.last()) == strip_cr(ls.last())
        &&& order_user(os.last()) == user
        &&& orders_of_lines(user, ls.drop_last(), os.drop_last())
    } else {
        orders_of_lines(user, ls.drop_last(), os)
    }
}

/// Reads the orders in a chunk of input from user `user_id`, one per line.
/// Lines that are no order are skipped.
pub fn parse_orders(user_id: UserId, input: &str) -> (r: Vec<Order>)
    ensures
        orders_of_lines(user_id, lines(input@), r@),
{
    let n = input.unicode_len();
    let mut out: Vec<Order> = Vec::new();
    let mut start: usize = 0;
    let mut i: usize = 0;
    while i < n
        invariant
            n == input@.len(),
            start <= i <= n,
            split_lines(input@.take(i as int)).1 == input@.subrange(start as int, i as int),
            orders_of_lines(user_id, split_lines(input@.take(i as int)).0, out@),
        decreases n - i,
    {
        let c = input.get_char(i);
        assert(input@.take(i + 1).drop_last() =~= input@.take(i as int));
        if c == '\n' {
            push_line(user_id, input, start, i, &mut out, Ghost(split_lines(input@.take(i as int)).0));
            start = i + 1;
            assert(input@.subrange(start as int, i + 1) =~= Seq::<char>::empty());
        } else {
            assert(input@.subrange(start as int, i + 1) =~= input@.subrange(start as int, i as int).push(c));
        }
        i = i + 1;
    }
    assert(input@.take(n as int) =~= input@);
    if start < n {
        push_line(user_id, input, start, n, &mut out, Ghost(split_lines(input@).0));
    } else {
        assert(input@.subrange(start as int, n as int) =~= Seq::<char>::empty());
    }
    out
}

/// Reads the line `input[start..end]` and appends its order, if it is one.
fn push_line(user_id: UserId, input: &str, start: usize, end: usize, out: &mut Vec<Order>, done: Ghost<Seq<Seq<char>>>)
    requires
        start <= end <= input@.len(),
        orders_of_lines(user_id, done@, old(out)@),
    ensures
        orders_of_lines(user_id, done@.push(input@.subrange(start as int, end as int)), final(out)@),
{
    let ghost line = input@.subrange(start as int, end as int);
    let mut stop = end;
    if end > start && input.get_char(end - 1) == '\r' {
        stop = end - 1;
    }
    let text = input.substring_char(start, stop);
    assert(text@ =~= strip_cr(line));
    assert(done@.push(line).drop_last() =~= done@);
    match Order::new_order_form_str(user_id, text) {
        Ok(order) => {
            out.push(order);
            assert(out@.drop_last() =~= old(out)@);
        },
        Err(_) => {},
    }
}

/// The acknowledgement of an order for `p`.
pub open spec fn ack_text(p: Product) -> Seq<char> {
    "ACK:"@ + product_name(p) + "\n"@
}

/// The notice of a trade of `p`.
pub open spec fn trade_text(p: Product) -> Seq<char> {
    "TRADE:"@ + product_name(p) + "\n"@
}

/// The line that acknowledges an order for `product`.
pub fn ack_message(product: Product) -> (r: String)
    ensures
        r@ == ack_text(product),
{
    let mut m = String::from_str("ACK:");
    m.append(product.name());
    m.append("\n");
    m
}

/// The line that tells every user about a trade.
pub fn trade_message(transaction: &Transaction) -> (r: String)
    ensures
        r@ == trade_text(transaction.0),
{
    let mut m = String::from_str("TRADE:");
    m.append(transaction.0.name());
    m.append("\n");
    m
}

} // verus!
