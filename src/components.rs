use vstd::prelude::*;

verus! {

/// The number of commas in `s`.
pub open spec fn comma_count(s: Seq<char>) -> nat
    decreases s.len(),
{
    if s.len() == 0 {
        0
    } else {
        comma_count(s.drop_last()) + if s.last() == ',' {
            1nat
        } else {
            0nat
        }
    }
}

proof fn lemma_comma_count_step(s: Seq<char>, i: int)
    requires
        0 <= i < s.len(),
    ensures
        comma_count(s.take(i + 1)) == comma_count(s.take(i)) + if s[i] == ',' {
            1nat
        } else {
            0nat
        },
{
    assert(s.take(i + 1).drop_last() =~= s.take(i));
}

/// Splits `x,y` at its comma into the text of the two components.
///
/// Succeeds exactly when `s` holds one comma; the components are what stands
/// before and after it, untrimmed. Otherwise the error is the number of
/// comma-separated parts that `s` holds.
pub fn split_components<'a>(s: &'a str) -> (r: Result<(&'a str, &'a str), usize>)
    requires
        s@.len() < usize::MAX,
    ensures
        r is Ok <==> comma_count(s@) == 1,
        r matches Ok((x, y)) ==> x@ + seq![','] + y@ == s@ && comma_count(x@) == 0,
        r matches Err(n) ==> n == comma_count(s@) + 1,
{
    let len = s.unicode_len();
    let mut count: usize = 0;
    let mut first: usize = 0;
    let mut i: usize = 0;
    while i < len
        invariant
            len == s@.len(),
            len < usize::MAX,
            i <= len,
            count <= i,
            count == comma_count(s@.take(i as int)),
            count > 0 ==> first < i && s@[first as int] == ',' && comma_count(
                s@.take(first as int),
            ) == 0,
        decreases len - i,
    {
        proof {
            lemma_comma_count_step(s@, i as int);
        }
        if s.get_char(i) == ',' {
            if count == 0 {
                first = i;
            }
            count = count + 1;
        }
        i = i + 1;
    }
    assert(s@.take(len as int) =~= s@);
    if count != 1 {
        return Err(count + 1);
    }
    let x = s.substring_char(0, first);
    let y = s.substring_char(first + 1, len);
    assert(x@ =~= s@.take(first as int));
    assert(x@ + seq![','] + y@ =~= s@);
    Ok((x, y))
}

} // verus!
