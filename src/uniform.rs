use vstd::prelude::*;

verus! {

/// The character of a decimal digit.
pub open spec fn digit_char(d: nat) -> char {
    if d == 0 {
        '0'
    } else if d == 1 {
        '1'
    } else if d == 2 {
        '2'
    } else if d == 3 {
        '3'
    } else if d == 4 {
        '4'
    } else if d == 5 {
        '5'
    } else if d == 6 {
        '6'
    } else if d == 7 {
        '7'
    } else if d == 8 {
        '8'
    } else {
        '9'
    }
}

/// The decimal notation of `n`, without sign or leading zeros.
pub open spec fn decimal(n: nat) -> Seq<char>
    decreases n,
{
    if n < 10 {
        seq![digit_char(n)]
    } else {
        decimal(n / 10) + seq![digit_char(n % 10)]
    }
}

/// The name of a uniform that is a field of a material: `material.` followed
/// by the texture kind and its number among the textures of that kind.
pub open spec fn material_uniform(kind: Seq<char>, number: nat) -> Seq<char> {
    seq!['m', 'a', 't', 'e', 'r', 'i', 'a', 'l', '.'] + kind + decimal(number)
}

/// The name of a uniform that is a field of an element of a uniform array:
/// `array[index].field`.
pub open spec fn indexed_uniform(array: Seq<char>, index: nat, field: Seq<char>) -> Seq<char> {
    array + seq!['['] + decimal(index) + seq![']', '.'] + field
}

fn digit_str(d: u32) -> (r: &'static str)
    requires
        d < 10,
    ensures
        r@ == seq![digit_char(d as nat)],
{
    proof {
        reveal_strlit("0");
        reveal_strlit("1");
        reveal_strlit("2");
        reveal_strlit("3");
        reveal_strlit("4");
        reveal_strlit("5");
        reveal_strlit("6");
        reveal_strlit("7");
        reveal_strlit("8");
        reveal_strlit("9");
    }
    let r = if d == 0 {
        "0"
    } else if d == 1 {
        "1"
    } else if d == 2 {
        "2"
    } else if d == 3 {
        "3"
    } else if d == 4 {
        "4"
    } else if d == 5 {
        "5"
    } else if d == 6 {
        "6"
    } else if d == 7 {
        "7"
    } else if d == 8 {
        "8"
    } else {
        "9"
    };
    assert(r@ =~= seq![digit_char(d as nat)]);
    r
}

/// Writes `n` in decimal notation.
pub fn decimal_string(n: u32) -> (r: String)
    ensures
        r@ == decimal(n as nat),
    decreases n,
{
    if n < 10 {
        String::from_str(digit_str(n))
    } else {
        let mut s = decimal_string(n / 10);
        s.append(digit_str(n % 10));
        s
    }
}

/// The uniform through which a shader samples the `number`-th texture of the
/// given kind, such as `material.texture_diffuse1`.
pub fn material_uniform_name(kind: &str, number: u32) -> (r: String)
    ensures
        r@ == material_uniform(kind@, number as nat),
{
    let prefix = "material.";
    proof {
        reveal_strlit("material.");
    }
    let mut r = String::from_str(prefix);
    r.append(kind);
    let digits = decimal_string(number);
    r.append(digits.as_str());
    assert(r@ =~= material_uniform(kind@, number as nat));
    r
}

/// The uniform for one field of one element of a uniform array, such as
/// `point_lights[2].pos`.
pub fn indexed_uniform_name(array: &str, index: u32, field: &str) -> (r: String)
    ensures
        r@ == indexed_uniform(array@, index as nat, field@),
{
    proof {
        reveal_strlit("[");
        reveal_strlit("].");
    }
    let mut r = String::from_str(array);
    r.append("[");
    let digits = decimal_string(index);
    r.append(digits.as_str());
    r.append("].");
    r.append(field);
    assert(r@ =~= indexed_uniform(array@, index as nat, field@));
    r
}

} // verus!
