//! The canonical serialized form of the course-group listing: the byte-for-
//! byte JSON text that the listing cache stores and fingerprints.

use vstd::prelude::*;

verus! {

use crate::json::{chars_to_string, dec_int, jstr, push_dec_i64, push_json_string, push_str_chars};
use crate::model::{Course, CourseGroup};

/// The canonical JSON form of one course.
pub open spec fn course_json(c: Course) -> Seq<char> {
    "{\"id\":"@ + dec_int(c.id as int) + ",\"name\":"@ + jstr(c.name@) + ",\"code\":"@ + jstr(
        c.code@,
    ) + ",\"code_id\":"@ + jstr(c.code_id@) + ",\"department\":"@ + jstr(c.department@)
        + ",\"teachers\":"@ + jstr(c.teachers@) + ",\"credit\":"@ + dec_int(c.credit as int)
        + ",\"max_student\":"@ + dec_int(c.max_student as int) + ",\"week_hour\":"@ + dec_int(
        c.week_hour as int,
    ) + ",\"year\":"@ + dec_int(c.year as int) + ",\"semester\":"@ + dec_int(c.semester as int)
        + ",\"campus_name\":"@ + jstr(c.campus_name@) + ",\"coursegroup_id\":"@ + dec_int(
        c.coursegroup_id as int,
    ) + "}"@
}

/// The canonical JSON form of a sequence of courses, comma separated.
pub open spec fn courses_json(cs: Seq<Course>) -> Seq<char>
    decreases cs.len(),
{
    if cs.len() == 0 {
        Seq::empty()
    } else if cs.len() == 1 {
        course_json(cs[0])
    } else {
        courses_json(cs.drop_last()) + seq![','] + course_json(cs.last())
    }
}

/// The canonical JSON form of one course group with its courses.
pub open spec fn group_json(g: CourseGroup) -> Seq<char> {
    "{\"id\":"@ + dec_int(g.id as int) + ",\"name\":"@ + jstr(g.name@) + ",\"code\":"@ + jstr(
        g.code@,
    ) + ",\"department\":"@ + jstr(g.department@) + ",\"campus_name\":"@ + jstr(g.campus_name@)
        + ",\"course_list\":["@ + courses_json(g.courses@) + "]}"@
}

/// The canonical JSON form of a sequence of groups, comma separated.
pub open spec fn groups_json(gs: Seq<CourseGroup>) -> Seq<char>
    decreases gs.len(),
{
    if gs.len() == 0 {
        Seq::empty()
    } else if gs.len() == 1 {
        group_json(gs[0])
    } else {
        groups_json(gs.drop_last()) + seq![','] + group_json(gs.last())
    }
}

/// The canonical serialized snapshot of the whole listing: a JSON array of
/// groups with their courses, in store order.
pub open spec fn listing_json(gs: Seq<CourseGroup>) -> Seq<char> {
    "["@ + groups_json(gs) + "]"@
}

/// Appends a literal key prefix followed by a decimal number.
fn push_lit_int(buf: &mut Vec<char>, lit: &str, v: i64)
    ensures
        final(buf)@ == old(buf)@ + lit@ + dec_int(v as int),
{
    push_str_chars(buf, lit);
    push_dec_i64(buf, v);
    proof {
        assert(buf@ =~= old(buf)@ + lit@ + dec_int(v as int));
    }
}

/// Appends a literal key prefix followed by a JSON string literal.
fn push_lit_str(buf: &mut Vec<char>, lit: &str, s: &str)
    ensures
        final(buf)@ == old(buf)@ + lit@ + jstr(s@),
{
    push_str_chars(buf, lit);
    push_json_string(buf, s);
    proof {
        assert(buf@ =~= old(buf)@ + lit@ + jstr(s@));
    }
}

/// Appends the canonical JSON form of one course.
#[verifier::rlimit(60)]
fn push_course(buf: &mut Vec<char>, c: &Course)
    ensures
        final(buf)@ == old(buf)@ + course_json(*c),
{
    push_lit_int(buf, "{\"id\":", c.id as i64);
    push_lit_str(buf, ",\"name\":", c.name.as_str());
    push_lit_str(buf, ",\"code\":", c.code.as_str());
    push_lit_str(buf, ",\"code_id\":", c.code_id.as_str());
    let ghost head = old(buf)@ + "{\"id\":"@ + dec_int(c.id as int) + ",\"name\":"@ + jstr(c.name@)
        + ",\"code\":"@ + jstr(c.code@) + ",\"code_id\":"@ + jstr(c.code_id@);
    proof {
        assert(buf@ =~= head);
    }
    push_lit_str(buf, ",\"department\":", c.department.as_str());
    push_lit_str(buf, ",\"teachers\":", c.teachers.as_str());
    push_lit_int(buf, ",\"credit\":", c.credit);
    push_lit_int(buf, ",\"max_student\":", c.max_student as i64);
    let ghost mid = head + ",\"department\":"@ + jstr(c.department@) + ",\"teachers\":"@ + jstr(
        c.teachers@,
    ) + ",\"credit\":"@ + dec_int(c.credit as int) + ",\"max_student\":"@ + dec_int(
        c.max_student as int,
    );
    proof {
        assert(buf@ =~= mid);
    }
    push_lit_int(buf, ",\"week_hour\":", c.week_hour as i64);
    push_lit_int(buf, ",\"year\":", c.year as i64);
    push_lit_int(buf, ",\"semester\":", c.semester as i64);
    push_lit_str(buf, ",\"campus_name\":", c.campus_name.as_str());
    push_lit_int(buf, ",\"coursegroup_id\":", c.coursegroup_id as i64);
    push_str_chars(buf, "}");
    proof {
        assert(buf@ =~= mid + ",\"week_hour\":"@ + dec_int(c.week_hour as int) + ",\"year\":"@
            + dec_int(c.year as int) + ",\"semester\":"@ + dec_int(c.semester as int)
            + ",\"campus_name\":"@ + jstr(c.campus_name@) + ",\"coursegroup_id\":"@ + dec_int(
            c.coursegroup_id as int,
        ) + "}"@);
        assert(buf@ =~= old(buf)@ + course_json(*c));
    }
}

/// Appends the canonical JSON forms of the courses, comma separated.
fn push_courses(buf: &mut Vec<char>, cs: &Vec<Course>)
    ensures
        final(buf)@ == old(buf)@ + courses_json(cs@),
{
    let mut i: usize = 0;
    while i < cs.len()
        invariant
            i <= cs@.len(),
            buf@ == old(buf)@ + courses_json(cs@.take(i as int)),
        decreases cs@.len() - i,
    {
        if i > 0 {
            buf.push(',');
        }
        push_course(buf, &cs[i]);
        proof {
            assert(cs@.take(i + 1).drop_last() =~= cs@.take(i as int));
            assert(cs@.take(i + 1).last() == cs@[i as int]);
            assert(buf@ =~= old(buf)@ + courses_json(cs@.take(i + 1)));
        }
        i = i + 1;
    }
    proof {
        assert(cs@.take(cs@.len() as int) =~= cs@);
    }
}

/// Appends the canonical JSON form of one group with its courses.
#[verifier::rlimit(100)]
fn push_group(buf: &mut Vec<char>, g: &CourseGroup)
    ensures
        final(buf)@ == old(buf)@ + group_json(*g),
{
    push_lit_int(buf, "{\"id\":", g.id as i64);
    push_lit_str(buf, ",\"name\":", g.name.as_str());
    push_lit_str(buf, ",\"code\":", g.code.as_str());
    let ghost head = old(buf)@ + "{\"id\":"@ + dec_int(g.id as int) + ",\"name\":"@ + jstr(g.name@)
        + ",\"code\":"@ + jstr(g.code@);
    proof {
        assert(buf@ =~= head);
    }
    push_lit_str(buf, ",\"department\":", g.department.as_str());
    push_lit_str(buf, ",\"campus_name\":", g.campus_name.as_str());
    let ghost mid = head + ",\"department\":"@ + jstr(g.department@) + ",\"campus_name\":"@ + jstr(
        g.campus_name@,
    );
    proof {
        assert(buf@ =~= mid);
    }
    push_str_chars(buf, ",\"course_list\":[");
    push_courses(buf, &g.courses);
    push_str_chars(buf, "]}");
    proof {
        assert(buf@ =~= mid + ",\"course_list\":["@ + courses_json(g.courses@) + "]}"@);
        assert(buf@ =~= old(buf)@ + group_json(*g));
    }
}

/// Renders the canonical serialized snapshot of the listing.
#[verifier::rlimit(60)]
pub fn render_listing(groups: &Vec<CourseGroup>) -> (s: String)
    ensures
        s@ == listing_json(groups@),
{
    let mut buf: Vec<char> = Vec::new();
    push_str_chars(&mut buf, "[");
    let mut i: usize = 0;
    while i < groups.len()
        invariant
            i <= groups@.len(),
            buf@ == "["@ + groups_json(groups@.take(i as int)),
        decreases groups@.len() - i,
    {
        if i > 0 {
            buf.push(',');
        }
        push_group(&mut buf, &groups[i]);
        proof {
            assert(groups@.take(i + 1).drop_last() =~= groups@.take(i as int));
            assert(groups@.take(i + 1).last() == groups@[i as int]);
            assert(buf@ =~= "["@ + groups_json(groups@.take(i + 1)));
        }
        i = i + 1;
    }
    push_str_chars(&mut buf, "]");
    proof {
        assert(groups@.take(groups@.len() as int) =~= groups@);
        assert(buf@ =~= listing_json(groups@));
    }
    chars_to_string(&buf)
}

} // verus!
