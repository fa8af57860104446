use vstd::prelude::*;
use crate::map::{MapData, Viewport, WORLD_ZOOM};
use vstd::string::StringExecFns;

verus! {

/// Units of the stored coordinates per degree.
pub const UNITS_PER_DEGREE: u64 = 10_000_000;

/// Digits after the decimal point of a rendered coordinate.
pub const FRACTION_DIGITS: u64 = 7;

/// Relies on String::push, which appends the one character `c` to `s`.
#[verifier::external_body]
fn push_char(s: &mut String, c: char)
    ensures
        final(s)@ == old(s)@.push(c),
{
    s.push(c)
}

pub open spec fn digit_char(d: int) -> char {
    if d == 0 {
        '0'
    } else if d == 1 {
        '1'
    } else if d == 2 {
        '2'
    } else if d == 3 {
        '3'
    } else if d == 4 {
        '4'
    } else if d == 5 {
        '5'
    } else if d == 6 {
        '6'
    } else if d == 7 {
        '7'
    } else if d == 8 {
        '8'
    } else {
        '9'
    }
}

/// The decimal digits of `n`, without leading zeros ("0" for zero).
pub open spec fn digits(n: nat) -> Seq<char>
    decreases n,
{
    if n < 10 {
        seq![digit_char(n as int)]
    } else {
        digits(n / 10).push(digit_char((n % 10) as int))
    }
}

/// The lowest `w` decimal digits of `n`, padded with zeros.
pub open spec fn fixed_digits(n: nat, w: nat) -> Seq<char>
    decreases w,
{
    if w == 0 {
        Seq::empty()
    } else {
        fixed_digits(n / 10, (w - 1) as nat).push(digit_char((n % 10) as int))
    }
}

pub open spec fn abs(u: int) -> nat {
    if u < 0 {
        (-u) as nat
    } else {
        u as nat
    }
}

/// A coordinate in degrees, written with seven decimals: `-74.0060000`.
pub open spec fn coord_text(u: int) -> Seq<char> {
    (if u < 0 {
        seq!['-']
    } else {
        Seq::empty()
    }) + digits(abs(u) / UNITS_PER_DEGREE as nat) + seq!['.'] + fixed_digits(
        abs(u) % UNITS_PER_DEGREE as nat,
        FRACTION_DIGITS as nat,
    )
}

/// A point as a JavaScript pair: `[lat, lon]`.
pub open spec fn point_text(p: (i64, i64)) -> Seq<char> {
    "["@ + coord_text(p.0 as int) + ", "@ + coord_text(p.1 as int) + "]"@
}

/// The points, in order, separated by a comma and a line break.
pub open spec fn points_text(pts: Seq<(i64, i64)>) -> Seq<char>
    decreases pts.len(),
{
    if pts.len() == 0 {
        Seq::empty()
    } else if pts.len() == 1 {
        point_text(pts[0])
    } else {
        points_text(pts.drop_last()) + ",\n"@ + point_text(pts.last())
    }
}

/// The script line that sets the map's viewport.
pub open spec fn view_text(v: Viewport) -> Seq<char> {
    match v {
        Viewport::World => "map.setView([0, 0], "@ + digits(WORLD_ZOOM as nat) + ");"@,
        Viewport::Centered { lat, lon, zoom } => "map.setView(["@ + coord_text(lat as int)
            + ", "@ + coord_text(lon as int) + "], "@ + digits(zoom as nat) + ");"@,
        Viewport::Bounds { south, west, north, east } => "map.fitBounds([["@ + coord_text(
            south as int,
        ) + ", "@ + coord_text(west as int) + "], ["@ + coord_text(north as int) + ", "@
            + coord_text(east as int) + "]]);"@,
    }
}

fn digit(d: u64) -> (c: char)
    requires
        d < 10,
    ensures
        c == digit_char(d as int),
{
    if d == 0 {
        '0'
    } else if d == 1 {
        '1'
    } else if d == 2 {
        '2'
    } else if d == 3 {
        '3'
    } else if d == 4 {
        '4'
    } else if d == 5 {
        '5'
    } else if d == 6 {
        '6'
    } else if d == 7 {
        '7'
    } else if d == 8 {
        '8'
    } else {
        '9'
    }
}

fn push_digits(s: &mut String, n: u64)
    ensures
        final(s)@ == old(s)@ + digits(n as nat),
    decreases n,
{
    if n >= 10 {
        push_digits(s, n / 10);
    }
    push_char(s, digit(n % 10));
    proof {
        if n < 10 {
            assert(old(s)@.push(digit_char(n as int)) =~= old(s)@ + seq![digit_char(n as int)]);
        } else {
            assert(old(s)@ + digits((n / 10) as nat).push(digit_char((n % 10) as int)) =~= (
            old(s)@ + digits((n / 10) as nat)).push(digit_char((n % 10) as int)));
        }
    }
}

fn push_fixed_digits(s: &mut String, n: u64, w: u64)
    ensures
        final(s)@ == old(s)@ + fixed_digits(n as nat, w as nat),
    decreases w,
{
    if w == 0 {
        assert(old(s)@ + Seq::<char>::empty() =~= old(s)@);
        return;
    }
    push_fixed_digits(s, n / 10, w - 1);
    push_char(s, digit(n % 10));
    proof {
        assert(old(s)@ + fixed_digits((n / 10) as nat, (w - 1) as nat).push(
            digit_char((n % 10) as int),
        ) =~= (old(s)@ + fixed_digits((n / 10) as nat, (w - 1) as nat)).push(
            digit_char((n % 10) as int),
        ));
    }
}

/// Appends a coordinate in degrees with seven decimals.
fn push_coord(s: &mut String, u: i64)
    ensures
        final(s)@ == old(s)@ + coord_text(u as int),
{
    let ghost s0 = s@;
    let a: u64 = if u < 0 {
        s.append("-");
        ((-(u + 1)) as u64) + 1
    } else {
        u as u64
    };
    let ghost s1 = s@;
    assert(a as nat == abs(u as int));
    push_digits(s, a / UNITS_PER_DEGREE);
    s.append(".");
    push_fixed_digits(s, a % UNITS_PER_DEGREE, FRACTION_DIGITS);
    proof {
        reveal_strlit("-");
        reveal_strlit(".");
        let sign = if u < 0 {
            seq!['-']
        } else {
            Seq::<char>::empty()
        };
        assert(s1 =~= s0 + sign);
        assert(s@ =~= s0 + coord_text(u as int));
    }
}

fn push_point(s: &mut String, p: (i64, i64))
    ensures
        final(s)@ == old(s)@ + point_text(p),
{
    let ghost s0 = s@;
    s.append("[");
    push_coord(s, p.0);
    s.append(", ");
    push_coord(s, p.1);
    s.append("]");
    assert(s@ =~= s0 + point_text(p));
}

fn push_view(s: &mut String, v: Viewport)
    ensures
        final(s)@ == old(s)@ + view_text(v),
{
    let ghost s0 = s@;
    match v {
        Viewport::World => {
            s.append("map.setView([0, 0], ");
            push_digits(s, WORLD_ZOOM as u64);
            s.append(");");
        },
        Viewport::Centered { lat, lon, zoom } => {
            s.append("map.setView([");
            push_coord(s, lat);
            s.append(", ");
            push_coord(s, lon);
            s.append("], ");
            push_digits(s, zoom as u64);
            s.append(");");
        },
        Viewport::Bounds { south, west, north, east } => {
            s.append("map.fitBounds([[");
            push_coord(s, south);
            s.append(", ");
            push_coord(s, west);
            s.append("], [");
            push_coord(s, north);
            s.append(", ");
            push_coord(s, east);
            s.append("]]);");
        },
    }
    assert(s@ =~= s0 + view_text(v));
}

fn push_points(s: &mut String, pts: &Vec<(i64, i64)>)
    ensures
        final(s)@ == old(s)@ + points_text(pts@),
{
    let ghost s0 = s@;
    let mut i: usize = 0;
    while i < pts.len()
        invariant
            i <= pts.len(),
            s@ == s0 + points_text(pts@.subrange(0, i as int)),
        decreases pts.len() - i,
    {
        let ghost before = s@;
        let ghost pre = pts@.subrange(0, i as int);
        let ghost cur = pts@.subrange(0, i + 1);
        assert(cur.drop_last() =~= pre);
        assert(cur.last() == pts@[i as int]);
        if i > 0 {
            s.append(",\n");
        }
        push_point(s, pts[i]);
        proof {
            if i == 0 {
                assert(pre =~= Seq::<(i64, i64)>::empty());
                assert(before =~= s0);
                assert(s@ =~= s0 + points_text(cur));
            } else {
                assert(s@ =~= s0 + points_text(cur));
            }
        }
        i = i + 1;
    }
    assert(pts@.subrange(0, pts.len() as int) =~= pts@);
}

/// The page before the viewport line.
pub const PAGE_HEAD: &'static str = "<html>\n<head>\n    <meta charset=\"utf-8\" />\n    <title>Locust Map</title>\n    <link rel=\"stylesheet\" href=\"https://unpkg.com/leaflet/dist/leaflet.css\" />\n    <style> #map { height: 100vh; } </style>\n</head>\n<body>\n    <div id=\"map\"></div>\n    <script src=\"https://unpkg.com/leaflet/dist/leaflet.js\"></script>\n    <script src=\"https://unpkg.com/leaflet.heat/dist/leaflet-heat.js\"></script>\n    <script>\n        var map = L.map('map');\n        ";

/// The page between the viewport line and the points.
pub const PAGE_MIDDLE: &'static str = "\n        L.tileLayer('https://{s}.tile.openstreetmap.org/{z}/{x}/{y}.png', {\n            maxZoom: 18,\n            attribution: '&copy; OpenStreetMap contributors'\n        }).addTo(map);\n        var points = [\n";

/// The page after the points: the heat layer and the path over them.
pub const PAGE_TAIL: &'static str = "\n        ];\n        L.heatLayer(points, {radius: 25}).addTo(map);\n        L.polyline(points).addTo(map);\n    </script>\n</body>\n</html>\n";

/// The whole page for a map: the viewport, then the points in order,
/// which feed both the heat layer and the path.
pub open spec fn page_text(d: MapData) -> Seq<char> {
    PAGE_HEAD@ + view_text(d.view) + PAGE_MIDDLE@ + points_text(d.points@) + PAGE_TAIL@
}

/// Renders the self-contained HTML page of a map.
pub fn render_page(d: &MapData) -> (r: String)
    ensures
        r@ == page_text(*d),
{
    let mut s = String::new();
    s.append(PAGE_HEAD);
    push_view(&mut s, d.view);
    s.append(PAGE_MIDDLE);
    push_points(&mut s, &d.points);
    s.append(PAGE_TAIL);
    assert(s@ =~= page_text(*d));
    s
}

} // verus!
