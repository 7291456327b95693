//! The recipient list of a bulk transfer: one recipient per line, either an
//! address alone (the total is shared equally) or an address and an ether
//! amount, separated by a comma or by white space.

use vstd::prelude::*;
use vstd::string::*;
use crate::text::{contains_seq, decimal, has_substring, push_decimal};
use crate::types::Address;
use crate::units::{
    address_from_text, eth_amount_spec, is_white_space, parse_address, parse_trimmed_eth, trim_of,
    trimmed,
};

verus! {

/// The pieces of `s` between occurrences of `sep`, as `str::split` gives
/// them for a character pattern: one more piece than separators, empty
/// pieces included.
pub open spec fn split_seq(s: Seq<char>, sep: char) -> Seq<Seq<char>>
    decreases s.len(),
{
    if s.len() == 0 {
        seq![seq![]]
    } else {
        let before = split_seq(s.drop_last(), sep);
        if s.last() == sep {
            before.push(seq![])
        } else {
            before.update(before.len() - 1, before.last().push(s.last()))
        }
    }
}

proof fn lemma_split_nonempty(s: Seq<char>, sep: char)
    ensures
        split_seq(s, sep).len() >= 1,
    decreases s.len(),
{
    if s.len() > 0 {
        lemma_split_nonempty(s.drop_last(), sep);
    }
}

/// The texts of a list of strings.
pub open spec fn texts(v: Seq<String>) -> Seq<Seq<char>> {
    v.map_values(|x: String| x@)
}

/// Splits `s` at every `sep`.
pub fn split_on(s: &str, sep: char) -> (r: Vec<String>)
    ensures
        texts(r@) == split_seq(s@, sep),
{
    let n = s.unicode_len();
    let mut pieces: Vec<String> = Vec::new();
    let mut start: usize = 0;
    let mut i: usize = 0;
    proof {
        assert(s@.subrange(0, 0) =~= Seq::<char>::empty());
        assert(texts(pieces@) =~= Seq::<Seq<char>>::empty());
        assert(texts(pieces@).push(s@.subrange(0, 0)) =~= seq![Seq::<char>::empty()]);
    }
    while i < n
        invariant
            n == s@.len(),
            start <= i <= n,
            split_seq(s@.subrange(0, i as int), sep) == texts(pieces@).push(
                s@.subrange(start as int, i as int),
            ),
        decreases n - i,
    {
        let c = s.get_char(i);
        let ghost prefix = s@.subrange(0, i as int);
        let ghost next = s@.subrange(0, i + 1);
        proof {
            assert(next.drop_last() =~= prefix);
            assert(next.last() == c);
            lemma_split_nonempty(prefix, sep);
        }
        if c == sep {
            let piece = s.substring_char(start, i).to_owned();
            let ghost before = pieces@;
            pieces.push(piece);
            proof {
                assert(texts(pieces@) =~= texts(before).push(s@.subrange(start as int, i as int)));
                assert(s@.subrange((i + 1) as int, (i + 1) as int) =~= Seq::<char>::empty());
            }
            start = i + 1;
        } else {
            proof {
                let p = split_seq(prefix, sep);
                assert(p.last() == s@.subrange(start as int, i as int));
                assert(s@.subrange(start as int, i + 1) =~= s@.subrange(start as int, i as int).push(c));
                assert(split_seq(next, sep) =~= texts(pieces@).push(s@.subrange(start as int, i + 1)));
            }
        }
        i = i + 1;
    }
    let last = s.substring_char(start, n).to_owned();
    let ghost before = pieces@;
    pieces.push(last);
    proof {
        assert(s@.subrange(0, n as int) =~= s@);
        assert(texts(pieces@) =~= texts(before).push(s@.subrange(start as int, n as int)));
    }
    pieces
}

/// The words of `s`, after a word `current` already begun: the runs of
/// characters between white space, empty runs left out.
pub open spec fn words_after(current: Seq<char>, s: Seq<char>) -> Seq<Seq<char>>
    decreases s.len(),
{
    let done = if current.len() > 0 {
        seq![current]
    } else {
        seq![]
    };
    if s.len() == 0 {
        done
    } else if is_white_space(s[0]) {
        done + words_after(seq![], s.drop_first())
    } else {
        words_after(current.push(s[0]), s.drop_first())
    }
}

/// The words of a text: split at runs of Unicode white space, empty words
/// left out.
pub open spec fn words_of(s: Seq<char>) -> Seq<Seq<char>> {
    words_after(seq![], s)
}

/// Relies on `str::split_whitespace`, which splits at characters with the
/// `White_Space` property and leaves out empty words.
#[verifier::external_body]
fn words(s: &str) -> (r: Vec<String>)
    ensures
        texts(r@) == words_of(s@),
{
    s.split_whitespace().map(|w| w.to_string()).collect()
}

/// The fields of a line: split at commas when it has one, else at white
/// space.
pub open spec fn parts_of(l: Seq<char>) -> Seq<Seq<char>> {
    if contains_seq(l, ","@) {
        split_seq(l, ',')
    } else {
        words_of(l)
    }
}

/// The fields of a line.
pub fn parts(line: &str) -> (r: Vec<String>)
    ensures
        texts(r@) == parts_of(line@),
{
    if has_substring(line, ",") {
        split_on(line, ',')
    } else {
        words(line)
    }
}

/// The lines of `ls` that hold more than white space.
pub open spec fn nonblank(ls: Seq<Seq<char>>) -> Seq<Seq<char>>
    decreases ls.len(),
{
    if ls.len() == 0 {
        seq![]
    } else {
        let before = nonblank(ls.drop_last());
        if trim_of(ls.last()).len() > 0 {
            before.push(ls.last())
        } else {
            before
        }
    }
}

/// The lines of an input that hold more than white space.
pub open spec fn input_lines_of(input: Seq<char>) -> Seq<Seq<char>> {
    nonblank(split_seq(input, '\n'))
}

/// The lines of `input` that hold more than white space, in order.
pub fn input_lines(input: &str) -> (r: Vec<String>)
    ensures
        texts(r@) == input_lines_of(input@),
{
    let all = split_on(input, '\n');
    let mut kept: Vec<String> = Vec::new();
    let mut i: usize = 0;
    while i < all.len()
        invariant
            i <= all.len(),
            texts(kept@) == nonblank(texts(all@).subrange(0, i as int)),
        decreases all.len() - i,
    {
        let t = trimmed(all[i].as_str());
        let ghost prefix = texts(all@).subrange(0, i as int);
        let ghost next = texts(all@).subrange(0, i + 1);
        proof {
            assert(next.drop_last() =~= prefix);
            assert(next.last() == all@[i as int]@);
        }
        if t.unicode_len() > 0 {
            let ghost before = kept@;
            kept.push(all[i].clone());
            proof {
                assert(texts(kept@) =~= texts(before).push(all@[i as int]@));
            }
        }
        i = i + 1;
    }
    proof {
        assert(texts(all@).subrange(0, all.len() as int) =~= texts(all@));
    }
    kept
}

/// The recipients of a bulk transfer.
pub enum BulkDisperseType {
    /// Addresses that share the total equally.
    Equal(Vec<Address>),
    /// Addresses with their own amounts in wei.
    Mixed(Vec<(Address, u128)>),
}

/// Why a recipient list was refused. Lines are counted from 1 among the
/// lines that hold more than white space.
pub enum BulkInputError {
    /// An address-only list has a line with more fields.
    UnexpectedParts { line: usize, parts: usize },
    /// An address does not parse.
    InvalidAddress { line: usize, text: String },
    /// An address-and-amount list has a line without exactly two fields.
    InvalidPair { line: usize },
    /// An amount does not parse.
    InvalidAmount { line: usize, text: String, reason: String },
    /// The first line has neither one nor two fields.
    UnknownFormat,
}

impl BulkInputError {
    /// The error as a sentence.
    pub fn to_string(&self) -> (r: String)
        ensures
            self matches BulkInputError::UnexpectedParts { line, parts } ==> r@ == "Line "@
                + decimal(line as nat) + ": Expected only address for equal distribution, got "@
                + decimal(parts as nat) + " parts"@,
            self matches BulkInputError::InvalidAddress { line, text } ==> r@ == "Line "@
                + decimal(line as nat) + ": Invalid address format: "@ + text@,
            self matches BulkInputError::InvalidPair { line } ==> r@ == "Line "@ + decimal(
                line as nat,
            ) + ": Invalid format. Expected `address,amount_in_eth` or `address amount_in_eth`"@,
            self matches BulkInputError::InvalidAmount { line, text, reason } ==> r@ == "Line "@
                + decimal(line as nat) + ": Invalid amount '"@ + text@ + "': "@ + reason@,
            self is UnknownFormat ==> r@
                == "Invalid format. Expected either addresses only (one per line) or address,amount pairs"@,
    {
        match self {
            BulkInputError::UnexpectedParts { line, parts } => {
                let mut r = String::from_str("Line ");
                push_decimal(&mut r, *line as u128);
                r.append(": Expected only address for equal distribution, got ");
                push_decimal(&mut r, *parts as u128);
                r.append(" parts");
                r
            },
            BulkInputError::InvalidAddress { line, text } => {
                let mut r = String::from_str("Line ");
                push_decimal(&mut r, *line as u128);
                r.append(": Invalid address format: ");
                r.append(text.as_str());
                r
            },
            BulkInputError::InvalidPair { line } => {
                let mut r = String::from_str("Line ");
                push_decimal(&mut r, *line as u128);
                r.append(
                    ": Invalid format. Expected `address,amount_in_eth` or `address amount_in_eth`",
                );
                r
            },
            BulkInputError::InvalidAmount { line, text, reason } => {
                let mut r = String::from_str("Line ");
                push_decimal(&mut r, *line as u128);
                r.append(": Invalid amount '");
                r.append(text.as_str());
                r.append("': ");
                r.append(reason.as_str());
                r
            },
            BulkInputError::UnknownFormat => String::from_str(
                "Invalid format. Expected either addresses only (one per line) or address,amount pairs",
            ),
        }
    }
}

/// The line that an error names (0 for none).
pub open spec fn error_line(e: BulkInputError) -> int {
    match e {
        BulkInputError::UnexpectedParts { line, .. } => line as int,
        BulkInputError::InvalidAddress { line, .. } => line as int,
        BulkInputError::InvalidPair { line } => line as int,
        BulkInputError::InvalidAmount { line, .. } => line as int,
        BulkInputError::UnknownFormat => 0,
    }
}

/// A line of an address-only list: after trimming, one field that is an
/// address.
pub open spec fn address_line_ok(l: Seq<char>) -> bool {
    let ps = parts_of(trim_of(l));
    ps.len() == 1 && address_from_text(trim_of(ps[0])) is Some
}

/// A line of an address-and-amount list: two fields, an address and an
/// ether amount that is read and fits in 128 bits of wei.
pub open spec fn pair_line_ok(l: Seq<char>) -> bool {
    let ps = parts_of(l);
    &&& ps.len() == 2
    &&& address_from_text(trim_of(ps[0])) is Some
    &&& trim_of(ps[1]).len() > 0
    &&& eth_amount_spec(trim_of(ps[1])) is Some
}

fn parse_address_lines(lines: &Vec<String>) -> (r: Result<BulkDisperseType, BulkInputError>)
    ensures
        r is Ok <==> forall|k: int| 0 <= k < lines.len() ==> address_line_ok(#[trigger] lines@[k]@),
        r matches Ok(BulkDisperseType::Equal(v)) ==> v.len() == lines.len() && forall|k: int|
            0 <= k < lines.len() ==> address_from_text(trim_of(parts_of(trim_of(#[trigger] lines@[k]@))[0]))
                == Some(v@[k]@),
        r is Ok ==> r matches Ok(BulkDisperseType::Equal(_)),
        r matches Err(e) ==> exists|k: int|
            0 <= k < lines.len() && !address_line_ok(#[trigger] lines@[k]@) && (forall|j: int|
                0 <= j < k ==> address_line_ok(lines@[j]@)) && error_line(e) == k + 1,
{
    let mut v: Vec<Address> = Vec::new();
    let mut k: usize = 0;
    while k < lines.len()
        invariant
            k <= lines.len(),
            v.len() == k,
            forall|j: int| 0 <= j < k ==> address_line_ok(#[trigger] lines@[j]@),
            forall|j: int|
                0 <= j < k ==> address_from_text(trim_of(parts_of(trim_of(#[trigger] lines@[j]@))[0]))
                    == Some(v@[j]@),
        decreases lines.len() - k,
    {
        let t = trimmed(lines[k].as_str());
        let ps = parts(t.as_str());
        if ps.len() != 1 {
            proof {
                assert(texts(ps@).len() == ps.len());
                assert(!address_line_ok(lines@[k as int]@));
            }
            return Err(BulkInputError::UnexpectedParts { line: k + 1, parts: ps.len() });
        }
        let field = trimmed(ps[0].as_str());
        proof {
            assert(texts(ps@)[0] == ps@[0]@);
        }
        match parse_address(field.as_str()) {
            Some(a) => {
                v.push(a);
            },
            None => {
                return Err(BulkInputError::InvalidAddress { line: k + 1, text: ps[0].clone() });
            },
        }
        k = k + 1;
    }
    Ok(BulkDisperseType::Equal(v))
}

fn parse_pair_lines(lines: &Vec<String>) -> (r: Result<BulkDisperseType, BulkInputError>)
    ensures
        r is Ok <==> forall|k: int| 0 <= k < lines.len() ==> pair_line_ok(#[trigger] lines@[k]@),
        r matches Ok(BulkDisperseType::Mixed(v)) ==> v.len() == lines.len() && forall|k: int|
            0 <= k < lines.len() ==> {
                &&& address_from_text(trim_of(parts_of(#[trigger] lines@[k]@)[0])) == Some(v@[k].0@)
                &&& eth_amount_spec(trim_of(parts_of(lines@[k]@)[1])) == Some(v@[k].1 as int)
            },
        r is Ok ==> r matches Ok(BulkDisperseType::Mixed(_)),
        r matches Err(e) ==> exists|k: int|
            0 <= k < lines.len() && !pair_line_ok(#[trigger] lines@[k]@) && (forall|j: int|
                0 <= j < k ==> pair_line_ok(lines@[j]@)) && error_line(e) == k + 1,
{
    let mut v: Vec<(Address, u128)> = Vec::new();
    let mut k: usize = 0;
    while k < lines.len()
        invariant
            k <= lines.len(),
            v.len() == k,
            forall|j: int| 0 <= j < k ==> pair_line_ok(#[trigger] lines@[j]@),
            forall|j: int|
                0 <= j < k ==> {
                    &&& address_from_text(trim_of(parts_of(#[trigger] lines@[j]@)[0])) == Some(v@[j].0@)
                    &&& eth_amount_spec(trim_of(parts_of(lines@[j]@)[1])) == Some(v@[j].1 as int)
                },
        decreases lines.len() - k,
    {
        let ps = parts(lines[k].as_str());
        if ps.len() != 2 {
            proof {
                assert(texts(ps@).len() == ps.len());
                assert(!pair_line_ok(lines@[k as int]@));
            }
            return Err(BulkInputError::InvalidPair { line: k + 1 });
        }
        proof {
            assert(texts(ps@)[0] == ps@[0]@);
            assert(texts(ps@)[1] == ps@[1]@);
        }
        let field = trimmed(ps[0].as_str());
        let a = match parse_address(field.as_str()) {
            Some(a) => a,
            None => {
                return Err(BulkInputError::InvalidAddress { line: k + 1, text: ps[0].clone() });
            },
        };
        let amount_text = trimmed(ps[1].as_str());
        let amount = match parse_trimmed_eth(amount_text.as_str()) {
            Ok(w) => {
                assert(eth_amount_spec(amount_text@) == Some(w as int));
                w
            },
            Err(e) => {
                let reason = e.to_string();
                return Err(BulkInputError::InvalidAmount { line: k + 1, text: amount_text, reason });
            },
        };
        v.push((a, amount));
        k = k + 1;
    }
    Ok(BulkDisperseType::Mixed(v))
}

/// Reads a recipient list. The first line that holds more than white space
/// sets the format: one field per line (addresses sharing the total) or two
/// (an address and an ether amount). Each line must then follow it; the
/// first line that does not is named in the error.
pub fn parse_bulk_disperse_input(input: &str) -> (r: Result<BulkDisperseType, BulkInputError>)
    ensures
        ({
            let ls = input_lines_of(input@);
            &&& ls.len() == 0 ==> (r matches Ok(BulkDisperseType::Equal(v)) && v.len() == 0)
            &&& ls.len() > 0 && parts_of(ls[0]).len() == 1 ==> {
                &&& (r is Ok <==> forall|k: int| 0 <= k < ls.len() ==> address_line_ok(#[trigger] ls[k]))
                &&& r is Ok ==> (r matches Ok(BulkDisperseType::Equal(v)) && v.len() == ls.len()
                    && forall|k: int| 0 <= k < ls.len() ==> address_from_text(trim_of(parts_of(trim_of(#[trigger] ls[k]))[0])) == Some(v@[k]@))
                &&& r is Err ==> exists|k: int| 0 <= k < ls.len() && !address_line_ok(#[trigger] ls[k])
                    && (forall|j: int| 0 <= j < k ==> address_line_ok(ls[j])) && error_line(r->Err_0) == k + 1
            }
            &&& ls.len() > 0 && parts_of(ls[0]).len() == 2 ==> {
                &&& (r is Ok <==> forall|k: int| 0 <= k < ls.len() ==> pair_line_ok(#[trigger] ls[k]))
                &&& r is Ok ==> (r matches Ok(BulkDisperseType::Mixed(v)) && v.len() == ls.len()
                    && forall|k: int| 0 <= k < ls.len() ==> address_from_text(trim_of(parts_of(#[trigger] ls[k])[0])) == Some(v@[k].0@)
                    && eth_amount_spec(trim_of(parts_of(ls[k])[1])) == Some(v@[k].1 as int))
                &&& r is Err ==> exists|k: int| 0 <= k < ls.len() && !pair_line_ok(#[trigger] ls[k])
                    && (forall|j: int| 0 <= j < k ==> pair_line_ok(ls[j])) && error_line(r->Err_0) == k + 1
            }
            &&& ls.len() > 0 && parts_of(ls[0]).len() != 1 && parts_of(ls[0]).len() != 2 ==> (r matches Err(BulkInputError::UnknownFormat))
        }),
{
    let lines = input_lines(input);
    proof {
        assert forall|k: int| 0 <= k < lines.len() implies #[trigger] lines@[k]@ == input_lines_of(input@)[k] by {
            assert(texts(lines@)[k] == lines@[k]@);
        }
    }
    if lines.len() == 0 {
        return Ok(BulkDisperseType::Equal(Vec::new()));
    }
    let first = parts(lines[0].as_str());
    proof {
        assert(texts(first@).len() == first.len());
    }
    if first.len() == 1 {
        parse_address_lines(&lines)
    } else if first.len() == 2 {
        parse_pair_lines(&lines)
    } else {
        Err(BulkInputError::UnknownFormat)
    }
}

} // verus!
