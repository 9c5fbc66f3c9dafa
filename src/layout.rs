use vstd::prelude::*;
use vstd::string::*;

verus! {

/// Byte value of a line feed.
pub const LF: u8 = 10;

/// Byte value of a carriage return.
pub const CR: u8 = 13;

/// Width of a line of `len` bytes ending just before `end`: a carriage
/// return right before the line feed is not part of the line.
pub open spec fn line_width(prefix: Seq<u8>, len: nat) -> nat {
    if len > 0 && prefix.last() == CR {
        (len - 1) as nat
    } else {
        len
    }
}

/// Scan of a text's bytes: complete lines so far, the widest of them, and
/// the length of the line being read.
pub open spec fn line_scan(b: Seq<u8>) -> (nat, nat, nat)
    decreases b.len(),
{
    if b.len() == 0 {
        (0, 0, 0)
    } else {
        let (c, m, l) = line_scan(b.drop_last());
        if b.last() == LF {
            let w = line_width(b.drop_last(), l);
            (c + 1, if w > m { w } else { m }, 0)
        } else {
            (c, m, l + 1)
        }
    }
}

/// Number of lines of a text, as `str::lines` splits it.
pub open spec fn line_count(b: Seq<u8>) -> nat {
    let (c, m, l) = line_scan(b);
    if l > 0 {
        c + 1
    } else {
        c
    }
}

/// Width in bytes of the widest line of a text.
pub open spec fn max_line_width(b: Seq<u8>) -> nat {
    let (c, m, l) = line_scan(b);
    if l > m {
        l
    } else {
        m
    }
}

/// A count as a `u16` keeps its low sixteen bits.
pub open spec fn low16(n: nat) -> nat {
    n % 65536
}

/// Smallest area that shows `text` with `margin` cells on every side:
/// the widest line's width and the number of lines, each plus twice the
/// margin.
pub fn min_area_for_text(text: &str, margin: u16) -> (r: (u16, u16))
    requires
        low16(max_line_width(text.spec_bytes())) + 2 * margin <= u16::MAX,
        low16(line_count(text.spec_bytes())) + 2 * margin <= u16::MAX,
    ensures
        r.0 == low16(max_line_width(text.spec_bytes())) + 2 * margin,
        r.1 == low16(line_count(text.spec_bytes())) + 2 * margin,
{
    let b = text.as_bytes();
    let ghost s = text.spec_bytes();
    let mut count: usize = 0;
    let mut widest: usize = 0;
    let mut current: usize = 0;
    let mut i: usize = 0;
    assert(s.subrange(0, 0) =~= Seq::<u8>::empty());
    while i < b.len()
        invariant
            b@ == s,
            i <= s.len(),
            line_scan(s.subrange(0, i as int)) == (count as nat, widest as nat, current as nat),
            count + current <= i,
            widest <= i,
            current <= i,
        decreases s.len() - i,
    {
        let x = b[i];
        assert(s.subrange(0, i + 1).drop_last() =~= s.subrange(0, i as int));
        assert(s.subrange(0, i + 1).last() == x);
        if x == LF {
            let w = if current > 0 && b[i - 1] == CR {
                current - 1
            } else {
                current
            };
            proof {
                if current > 0 {
                    assert(s.subrange(0, i as int).last() == s[i - 1]);
                }
            }
            if w > widest {
                widest = w;
            }
            count = count + 1;
            current = 0;
        } else {
            current = current + 1;
        }
        i = i + 1;
    }
    assert(s.subrange(0, i as int) =~= s);
    let lines = if current > 0 {
        count + 1
    } else {
        count
    };
    let width = if current > widest {
        current
    } else {
        widest
    };
    let w16 = (width % 65536) as u16;
    let h16 = (lines % 65536) as u16;
    (w16 + margin * 2, h16 + margin * 2)
}

/// Columns needed for `n` items in `rows` rows.
pub open spec fn cols_for(n: nat, rows: nat) -> nat {
    ((n + rows - 1) as nat) / rows
}

/// Cells of `width` by `height` split into `rows` by `cols` are between one
/// and three times as wide as high, in the terminal's cell units.
pub open spec fn ratio_ok(width: nat, height: nat, rows: nat, cols: nat) -> bool {
    height > 0 && cols * height < width * rows && width * rows < 3 * cols * height
}

/// The best grid among the first `upto` row counts: a later candidate
/// replaces the best when it wastes no more cells and its cell shape is
/// acceptable. It starts from one row holding every item.
pub open spec fn grid_scan(n: nat, width: nat, height: nat, upto: nat) -> (nat, nat, nat)
    decreases upto,
{
    if upto == 0 {
        (1, n, n)
    } else {
        let (br, bc, bw) = grid_scan(n, width, height, (upto - 1) as nat);
        let rows = upto;
        let cols = cols_for(n, rows);
        let waste = (rows * cols - n) as nat;
        if waste <= bw && ratio_ok(width, height, rows, cols) {
            (rows, cols, waste)
        } else {
            (br, bc, bw)
        }
    }
}

/// Rows and columns for `item_count` panels in an area of `width` by
/// `height` cells; a single panel, or none, takes the whole area.
pub fn calculate_grid_dimensions(item_count: usize, width: u16, height: u16) -> (r: (usize, usize))
    ensures
        item_count <= 1 ==> r == (1usize, 1usize),
        item_count > 1 ==> {
            let (rows, cols, waste) = grid_scan(
                item_count as nat,
                width as nat,
                height as nat,
                item_count as nat,
            );
            r.0 == rows && r.1 == cols
        },
{
    if item_count <= 1 {
        return (1, 1);
    }
    let n = item_count as u128;
    let w = width as u128;
    let h = height as u128;
    let mut best_rows: usize = 1;
    let mut best_cols: usize = item_count;
    let mut best_waste: usize = item_count;
    let mut done: usize = 0;
    while done < item_count
        invariant
            done <= item_count,
            item_count > 1,
            n == item_count,
            w == width,
            h == height,
            grid_scan(item_count as nat, width as nat, height as nat, done as nat) == (
                best_rows as nat,
                best_cols as nat,
                best_waste as nat,
            ),
        decreases item_count - done,
    {
        let rows = done + 1;
        let r = rows as u128;
        let cols = (n + r - 1) / r;
        proof {
            assert(cols * r >= n) by (nonlinear_arith)
                requires
                    cols as int == (n as int + r as int - 1) / (r as int),
                    r >= 1,
            ;
            assert(cols * r < n + r) by (nonlinear_arith)
                requires
                    cols as int == (n as int + r as int - 1) / (r as int),
                    r >= 1,
            ;
            assert(cols <= n) by (nonlinear_arith)
                requires
                    cols as int == (n as int + r as int - 1) / (r as int),
                    r >= 1,
                    r <= n,
            ;
            assert(n <= 0xFFFF_FFFF_FFFF_FFFFu128);
            assert(w * r <= 65535 * n) by (nonlinear_arith)
                requires
                    w <= 65535,
                    r <= n,
            ;
            assert(3 * cols * h <= 3 * n * 65535) by (nonlinear_arith)
                requires
                    h <= 65535,
                    cols <= n,
            ;
            assert(cols * h <= n * 65535) by (nonlinear_arith)
                requires
                    h <= 65535,
                    cols <= n,
            ;
            assert((3 * cols) * h <= 3 * n * 65535) by (nonlinear_arith)
                requires
                    h <= 65535,
                    cols <= n,
            ;
            assert(r * cols == cols * r) by (nonlinear_arith);
            assert(cols * h == h * cols) by (nonlinear_arith);
        }
        let total = r * cols;
        let waste = total - n;
        let ok = h > 0 && cols * h < w * r && w * r < 3 * cols * h;
        if waste <= best_waste as u128 && ok {
            best_rows = rows;
            best_cols = cols as usize;
            best_waste = waste as usize;
        }
        done = done + 1;
    }
    (best_rows, best_cols)
}

} // verus!
