//! Physics-trace panels whose layout does not depend on the numbers: the
//! figures arrive already written out, and the panel puts them in place.

use vstd::prelude::*;

use crate::sim::body::names_of;
use crate::text::push_str;

verus! {

/// A resolved collision as the trace panel reports it: the two bodies'
/// names and the figures already written out (masses in kg, speeds in km/s).
pub struct CollisionReport {
    pub survivor_name: String,
    pub other_name: String,
    pub m_survivor: String,
    pub m_other: String,
    pub v_rel: String,
    pub merged_mass: String,
    pub merged_speed: String,
}

/// The lines of the collision trace.
pub open spec fn spec_collision_lines(c: CollisionReport) -> Seq<Seq<char>> {
    seq![
        "✦ Collision: "@ + c.survivor_name@ + " + "@ + c.other_name@,
        "  m₁ = "@ + c.m_survivor@ + " kg"@,
        "  m₂ = "@ + c.m_other@ + " kg"@,
        "  v_rel = |v₁ − v₂| = "@ + c.v_rel@ + " km/s"@,
        Seq::empty(),
        "Merged body: "@ + c.survivor_name@,
        "  m = m₁ + m₂"@,
        "    = "@ + c.merged_mass@ + " kg"@,
        "  v = (m₁v₁ + m₂v₂)/(m₁+m₂)"@,
        "    |v| = "@ + c.merged_speed@ + " km/s"@,
        "  (momentum conserved)"@,
    ]
}

/// The concatenation of three strings.
fn join3(a: &str, b: &str, c: &str) -> (s: String)
    ensures
        s@ == a@ + b@ + c@,
{
    let mut s = String::new();
    push_str(&mut s, a);
    push_str(&mut s, b);
    push_str(&mut s, c);
    proof {
        assert(Seq::<char>::empty() + a@ + b@ + c@ =~= a@ + b@ + c@);
    }
    s
}

/// The collision trace: masses, relative speed, and the momentum-conserving
/// merge.
pub fn collision_lines(c: &CollisionReport) -> (lines: Vec<String>)
    ensures
        names_of(lines@) == spec_collision_lines(*c),
{
    let mut lines: Vec<String> = Vec::new();
    let mut first = join3("✦ Collision: ", c.survivor_name.as_str(), " + ");
    push_str(&mut first, c.other_name.as_str());
    lines.push(first);
    lines.push(join3("  m₁ = ", c.m_survivor.as_str(), " kg"));
    lines.push(join3("  m₂ = ", c.m_other.as_str(), " kg"));
    lines.push(join3("  v_rel = |v₁ − v₂| = ", c.v_rel.as_str(), " km/s"));
    lines.push(String::new());
    let mut merged = "Merged body: ".to_owned();
    push_str(&mut merged, c.survivor_name.as_str());
    lines.push(merged);
    lines.push("  m = m₁ + m₂".to_owned());
    lines.push(join3("    = ", c.merged_mass.as_str(), " kg"));
    lines.push("  v = (m₁v₁ + m₂v₂)/(m₁+m₂)".to_owned());
    lines.push(join3("    |v| = ", c.merged_speed.as_str(), " km/s"));
    lines.push("  (momentum conserved)".to_owned());
    proof {
        assert(names_of(lines@) =~= spec_collision_lines(*c));
    }
    lines
}

/// The lines of the barycentric-correction trace shown at load, with the
/// body count and the three components of V_com written out.
pub open spec fn spec_load_lines(n: Seq<char>, vx: Seq<char>, vy: Seq<char>, vz: Seq<char>) -> Seq<Seq<char>> {
    seq![
        "Loaded "@ + n + " bodies"@,
        "Barycentric correction:"@,
        "  V_com = Σmᵢvᵢ / Σmᵢ"@,
        "  V_com = ["@ + vx + ", "@ + vy + ", "@ + vz + "]"@,
        "  subtracted from all bodies"@,
        "  → barycentre stays put"@,
    ]
}

/// The barycentric-correction trace shown at scenario load.
pub fn load_lines(n: &str, vx: &str, vy: &str, vz: &str) -> (lines: Vec<String>)
    ensures
        names_of(lines@) == spec_load_lines(n@, vx@, vy@, vz@),
{
    let mut lines: Vec<String> = Vec::new();
    lines.push(join3("Loaded ", n, " bodies"));
    lines.push("Barycentric correction:".to_owned());
    lines.push("  V_com = Σmᵢvᵢ / Σmᵢ".to_owned());
    let mut v = join3("  V_com = [", vx, ", ");
    push_str(&mut v, vy);
    push_str(&mut v, ", ");
    push_str(&mut v, vz);
    push_str(&mut v, "]");
    lines.push(v);
    lines.push("  subtracted from all bodies".to_owned());
    lines.push("  → barycentre stays put".to_owned());
    proof {
        assert(names_of(lines@) =~= spec_load_lines(n@, vx@, vy@, vz@));
    }
    lines
}

/// Each figure of a collision report stands, unaltered, in the line that
/// names it, and can be read back from that line; the names stand in the
/// title and the merged-body line.
pub proof fn lemma_collision_figures_in_place(c: CollisionReport)
    ensures
        ({
            let l = spec_collision_lines(c);
            &&& l.len() == 11
            &&& l[0] == "✦ Collision: "@ + c.survivor_name@ + " + "@ + c.other_name@
            &&& l[1] == "  m₁ = "@ + c.m_survivor@ + " kg"@
            &&& l[2] == "  m₂ = "@ + c.m_other@ + " kg"@
            &&& l[3] == "  v_rel = |v₁ − v₂| = "@ + c.v_rel@ + " km/s"@
            &&& l[4] == Seq::<char>::empty()
            &&& l[5] == "Merged body: "@ + c.survivor_name@
            &&& l[6] == "  m = m₁ + m₂"@
            &&& l[8] == "  v = (m₁v₁ + m₂v₂)/(m₁+m₂)"@
            &&& l[10] == "  (momentum conserved)"@
            &&& l[7] == "    = "@ + c.merged_mass@ + " kg"@
            &&& l[9] == "    |v| = "@ + c.merged_speed@ + " km/s"@
            &&& l[1].subrange(7, l[1].len() - 3) == c.m_survivor@
            &&& l[2].subrange(7, l[2].len() - 3) == c.m_other@
            &&& l[7].subrange(6, l[7].len() - 3) == c.merged_mass@
            &&& l[9].subrange(10, l[9].len() - 5) == c.merged_speed@
        }),
{
    reveal_strlit("  m₁ = ");
    reveal_strlit("  m₂ = ");
    reveal_strlit("    = ");
    reveal_strlit("    |v| = ");
    reveal_strlit(" kg");
    reveal_strlit(" km/s");
    let l = spec_collision_lines(c);
    assert(l[1].subrange(7, l[1].len() - 3) =~= c.m_survivor@);
    assert(l[2].subrange(7, l[2].len() - 3) =~= c.m_other@);
    assert(l[7].subrange(6, l[7].len() - 3) =~= c.merged_mass@);
    assert(l[9].subrange(10, l[9].len() - 5) =~= c.merged_speed@);
}

/// The load trace names the body count in its first line and the three
/// components of V_com, in order, in its fourth; its other lines are fixed.
pub proof fn lemma_load_lines_in_place(n: Seq<char>, vx: Seq<char>, vy: Seq<char>, vz: Seq<char>)
    ensures
        ({
            let l = spec_load_lines(n, vx, vy, vz);
            &&& l.len() == 6
            &&& l[0] == "Loaded "@ + n + " bodies"@
            &&& l[1] == "Barycentric correction:"@
            &&& l[2] == "  V_com = Σmᵢvᵢ / Σmᵢ"@
            &&& l[3] == "  V_com = ["@ + vx + ", "@ + vy + ", "@ + vz + "]"@
            &&& l[4] == "  subtracted from all bodies"@
            &&& l[5] == "  → barycentre stays put"@
            &&& l[0].subrange(7, l[0].len() - 7) == n
        }),
{
    reveal_strlit("Loaded ");
    reveal_strlit(" bodies");
    let l = spec_load_lines(n, vx, vy, vz);
    assert(l[0].subrange(7, l[0].len() - 7) =~= n);
}

} // verus!
