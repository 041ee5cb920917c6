use vstd::prelude::*;
use vstd::arithmetic::div_mod::lemma_fundamental_div_mod_converse;

verus! {

/// The offset of instance `t` of a cube of `m * m * m` instances that stand
/// `spacing` apart, the first of them `spacing` from the origin on each axis.
/// The last axis varies fastest.
pub open spec fn grid_offset(m: int, spacing: int, t: int) -> (int, int, int) {
    (spacing * (t / m / m + 1), spacing * ((t / m) % m + 1), spacing * (t % m + 1))
}

proof fn lemma_cell_index(m: int, a: int, b: int, c: int)
    requires
        0 <= a,
        0 <= b < m,
        0 <= c < m,
    ensures
        (a * m * m + b * m + c) / m / m == a,
        ((a * m * m + b * m + c) / m) % m == b,
        (a * m * m + b * m + c) % m == c,
{
    let t = a * m * m + b * m + c;
    assert(t == (a * m + b) * m + c) by (nonlinear_arith)
        requires
            t == a * m * m + b * m + c,
    ;
    lemma_fundamental_div_mod_converse(t, m, a * m + b, c);
    lemma_fundamental_div_mod_converse(a * m + b, m, a, b);
}

/// The offsets of the instances of a cube of `per_axis` instances along each
/// axis, `spacing` apart, in the order of `grid_offset`.
pub fn instance_offsets(per_axis: u32, spacing: u32) -> (r: Vec<(u32, u32, u32)>)
    requires
        per_axis * per_axis * per_axis <= usize::MAX,
        spacing * per_axis <= u32::MAX,
    ensures
        r@.len() == per_axis * per_axis * per_axis,
        forall|t: int|
            0 <= t < r@.len() ==> {
                let (x, y, z) = #[trigger] r@[t];
                (x as int, y as int, z as int) == grid_offset(per_axis as int, spacing as int, t)
            },
{
    let ghost m = per_axis as int;
    let ghost s = spacing as int;
    let mut offsets: Vec<(u32, u32, u32)> = Vec::new();
    let mut a: u32 = 0;
    while a < per_axis
        invariant
            m == per_axis,
            s == spacing,
            m * m * m <= usize::MAX,
            s * m <= u32::MAX,
            a <= m,
            offsets@.len() == a * m * m,
            forall|t: int|
                0 <= t < offsets@.len() ==> {
                    let (x, y, z) = #[trigger] offsets@[t];
                    (x as int, y as int, z as int) == grid_offset(m, s, t)
                },
        decreases m - a,
    {
        let mut b: u32 = 0;
        while b < per_axis
            invariant
                m == per_axis,
                s == spacing,
                m * m * m <= usize::MAX,
                s * m <= u32::MAX,
                a < m,
                b <= m,
                offsets@.len() == a * m * m + b * m,
                forall|t: int|
                    0 <= t < offsets@.len() ==> {
                        let (x, y, z) = #[trigger] offsets@[t];
                        (x as int, y as int, z as int) == grid_offset(m, s, t)
                    },
            decreases m - b,
        {
            let mut c: u32 = 0;
            while c < per_axis
                invariant
                    m == per_axis,
                    s == spacing,
                    m * m * m <= usize::MAX,
                    s * m <= u32::MAX,
                    a < m,
                    b < m,
                    c <= m,
                    offsets@.len() == a * m * m + b * m + c,
                    forall|t: int|
                        0 <= t < offsets@.len() ==> {
                            let (x, y, z) = #[trigger] offsets@[t];
                            (x as int, y as int, z as int) == grid_offset(m, s, t)
                        },
                decreases m - c,
            {
                proof {
                    lemma_cell_index(m, a as int, b as int, c as int);
                    assert(s * (a + 1) <= s * m && s * (b + 1) <= s * m && s * (c + 1) <= s * m)
                        by (nonlinear_arith)
                        requires
                            0 <= s,
                            a < m,
                            b < m,
                            c < m,
                    ;
                }
                offsets.push((spacing * (a + 1), spacing * (b + 1), spacing * (c + 1)));
                c = c + 1;
            }
            b = b + 1;
            assert(a * m * m + (b - 1) * m + m == a * m * m + b * m) by (nonlinear_arith);
        }
        a = a + 1;
        assert((a - 1) * m * m + m * m == a * m * m) by (nonlinear_arith);
    }
    offsets
}

} // verus!
