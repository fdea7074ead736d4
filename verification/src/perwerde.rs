//! Perwerde (education): admins create courses, students enroll and complete them, and a
//! student's education score is the sum of the points of the courses it completed.
use vstd::prelude::*;
use crate::primitives::{AccountId, BlockNumber, Origin, signer_of, ensure_signed, RuntimeDbWeight, Weight, benchmarked, with_db};
use crate::storage::KeyMap;
use crate::trust::PerwerdeScoreProvider;

verus! {

/// Whether a course takes students.
#[derive(Clone, Copy, Debug, PartialEq, Eq, Structural)]
pub enum CourseStatus {
    Active,
    Archived,
}

/// A course.
#[derive(Clone, Debug)]
pub struct Course {
    pub id: u32,
    pub owner: AccountId,
    pub name: Vec<u8>,
    pub description: Vec<u8>,
    pub content_link: Vec<u8>,
    pub status: CourseStatus,
    pub created_at: BlockNumber,
}

/// A student's enrollment in a course.
#[derive(Clone, Copy, Debug, PartialEq, Eq, Structural)]
pub struct Enrollment {
    pub student: AccountId,
    pub course_id: u32,
    pub enrolled_at: BlockNumber,
    pub completed_at: Option<BlockNumber>,
    pub points_earned: u32,
}

/// Events of the pallet.
#[derive(Clone, Copy, Debug, PartialEq, Eq, Structural)]
pub enum PerwerdeEvent {
    CourseCreated { course_id: u32, owner: AccountId },
    StudentEnrolled { student: AccountId, course_id: u32 },
    CourseCompleted { student: AccountId, course_id: u32, points: u32 },
    CourseArchived { course_id: u32 },
}

/// Errors of the pallet.
#[derive(Clone, Copy, Debug, PartialEq, Eq, Structural)]
pub enum PerwerdeError {
    /// The origin may not make this call.
    BadOrigin,
    CourseNotFound,
    AlreadyEnrolled,
    NotEnrolled,
    CourseNotActive,
    CourseAlreadyCompleted,
    NotCourseOwner,
}

/// The pallet's constants.
#[derive(Clone, Debug)]
pub struct PerwerdeConfig {
    /// The accounts that the admin origin admits.
    pub admins: Vec<AccountId>,
    pub max_course_name_length: u32,
    pub max_course_desc_length: u32,
    pub max_course_link_length: u32,
    /// Most courses that one student may enroll in.
    pub max_students_per_course: u32,
}

/// The points that the completed enrollments among `list` earned.
pub open spec fn points_over(list: Seq<u32>, enrollments: Map<u64, Enrollment>) -> int
    decreases list.len(),
{
    if list.len() == 0 {
        0
    } else {
        points_over(list.drop_last(), enrollments) + if enrollments.contains_key(list.last() as u64)
            && enrollments[list.last() as u64].completed_at is Some {
            enrollments[list.last() as u64].points_earned as int
        } else {
            0
        }
    }
}

/// The storage of the perwerde pallet.
pub struct Perwerde {
    pub config: PerwerdeConfig,
    /// `Courses`.
    pub courses: KeyMap<Course>,
    /// `NextCourseId`.
    pub next_course_id: u32,
    /// `Enrollments`: per student, its enrollment in each course.
    pub enrollments: KeyMap<KeyMap<Enrollment>>,
    /// `StudentCourses`: per student, the courses it enrolled in, in order.
    pub student_courses: KeyMap<Vec<u32>>,
    /// Events deposited so far.
    pub events: Vec<PerwerdeEvent>,
}

impl Perwerde {
    /// The enrollment of `who` in course `c`.
    pub open spec fn enrollment_of(&self, who: AccountId, c: u32) -> Option<Enrollment> {
        if self.enrollments@.contains_key(who) && self.enrollments@[who]@.contains_key(c as u64) {
            Some(self.enrollments@[who]@[c as u64])
        } else {
            None
        }
    }

    /// The enrollments of `who`, by course.
    pub open spec fn enrollments_of(&self, who: AccountId) -> Map<u64, Enrollment> {
        if self.enrollments@.contains_key(who) {
            self.enrollments@[who]@
        } else {
            Map::empty()
        }
    }

    /// The courses `who` enrolled in, in order.
    pub open spec fn courses_of(&self, who: AccountId) -> Seq<u32> {
        if self.student_courses@.contains_key(who) {
            self.student_courses@[who]@
        } else {
            Seq::empty()
        }
    }

    /// The education score of `who`.
    pub open spec fn score(&self, who: AccountId) -> int {
        points_over(self.courses_of(who), self.enrollments_of(who))
    }

    /// Whether the admin origin admits `origin`, and as which account.
    pub open spec fn admin_of(&self, origin: Origin) -> Option<AccountId> {
        match origin {
            Origin::Signed(who) => if self.config.admins@.contains(who) {
                Some(who)
            } else {
                None
            },
            _ => None,
        }
    }

    /// A pallet with empty storage.
    pub fn new(config: PerwerdeConfig) -> (s: Self)
        ensures
            s.config.admins@ == config.admins@,
            s.config.max_course_name_length == config.max_course_name_length,
            s.config.max_course_desc_length == config.max_course_desc_length,
            s.config.max_course_link_length == config.max_course_link_length,
            s.config.max_students_per_course == config.max_students_per_course,
            s.courses@ == Map::<u64, Course>::empty(),
            s.next_course_id == 0,
            forall|who: AccountId, c: u32| #[trigger] s.enrollment_of(who, c) is None,
            forall|who: AccountId| #[trigger] s.courses_of(who) == Seq::<u32>::empty(),
            s.events@ == Seq::<PerwerdeEvent>::empty(),
    {
        Perwerde {
            config,
            courses: KeyMap::new(),
            next_course_id: 0,
            enrollments: KeyMap::new(),
            student_courses: KeyMap::new(),
            events: Vec::new(),
        }
    }

    fn ensure_admin(&self, origin: Origin) -> (r: Option<AccountId>)
        ensures
            r == self.admin_of(origin),
    {
        match origin {
            Origin::Signed(who) => {
                let mut i: usize = 0;
                while i < self.config.admins.len()
                    invariant
                        origin == Origin::Signed(who),
                        i <= self.config.admins@.len(),
                        forall|j: int| 0 <= j < i ==> self.config.admins@[j] != who,
                    decreases self.config.admins@.len() - i,
                {
                    if self.config.admins[i] == who {
                        proof {
                            assert(self.config.admins@[i as int] == who);
                        }
                        return Some(who);
                    }
                    i += 1;
                }
                None
            },
            _ => None,
        }
    }

    /// `create_course`: an admin creates an active course with the next course id, owned by
    /// itself, at block `now`.
    pub fn create_course(
        &mut self,
        origin: Origin,
        name: Vec<u8>,
        description: Vec<u8>,
        content_link: Vec<u8>,
        now: BlockNumber,
    ) -> (r: Result<(), PerwerdeError>)
        requires
            old(self).admin_of(origin) is Some ==> {
                &&& name@.len() <= old(self).config.max_course_name_length
                &&& description@.len() <= old(self).config.max_course_desc_length
                &&& content_link@.len() <= old(self).config.max_course_link_length
                &&& old(self).next_course_id < u32::MAX
            },
        ensures
            old(self).admin_of(origin) is None ==> r == Err::<(), PerwerdeError>(PerwerdeError::BadOrigin)
                && *final(self) == *old(self),
            old(self).admin_of(origin) matches Some(owner) ==> {
                let id = old(self).next_course_id;
                &&& r is Ok
                &&& final(self).courses@.dom() == old(self).courses@.dom().insert(id as u64)
                &&& final(self).courses@[id as u64].id == id
                &&& final(self).courses@[id as u64].owner == owner
                &&& final(self).courses@[id as u64].name@ == name@
                &&& final(self).courses@[id as u64].description@ == description@
                &&& final(self).courses@[id as u64].content_link@ == content_link@
                &&& final(self).courses@[id as u64].status == CourseStatus::Active
                &&& final(self).courses@[id as u64].created_at == now
                &&& forall|k: u64| k != id as u64 ==> #[trigger] final(self).courses@[k] == old(self).courses@[k]
                &&& final(self).next_course_id == id + 1
                &&& final(self).enrollments == old(self).enrollments
                &&& final(self).student_courses == old(self).student_courses
                &&& final(self).events@ == old(self).events@.push(PerwerdeEvent::CourseCreated { course_id: id, owner })
            },
    {
        let owner = match self.ensure_admin(origin) {
            Some(o) => o,
            None => return Err(PerwerdeError::BadOrigin),
        };
        let course_id = self.next_course_id;
        let course = Course {
            id: course_id,
            owner,
            name,
            description,
            content_link,
            status: CourseStatus::Active,
            created_at: now,
        };
        self.courses.insert(course_id as u64, course);
        self.next_course_id = course_id + 1;
        self.events.push(PerwerdeEvent::CourseCreated { course_id, owner });
        Ok(())
    }

    /// `enroll`: a signed student enrolls, at block `now`, in an active course it is not
    /// enrolled in.
    pub fn enroll(&mut self, origin: Origin, course_id: u32, now: BlockNumber) -> (r: Result<(), PerwerdeError>)
        requires
            signer_of(origin) matches Some(w) ==> (old(self).courses@.contains_key(course_id as u64)
                && old(self).courses@[course_id as u64].status == CourseStatus::Active
                && old(self).enrollment_of(w, course_id) is None ==> old(self).courses_of(w).len()
                < old(self).config.max_students_per_course),
        ensures
            r is Err ==> *final(self) == *old(self),
            signer_of(origin) is None ==> r == Err::<(), PerwerdeError>(PerwerdeError::BadOrigin),
            signer_of(origin) matches Some(student) ==> {
                if !old(self).courses@.contains_key(course_id as u64) {
                    r == Err::<(), PerwerdeError>(PerwerdeError::CourseNotFound)
                } else if old(self).courses@[course_id as u64].status != CourseStatus::Active {
                    r == Err::<(), PerwerdeError>(PerwerdeError::CourseNotActive)
                } else if old(self).enrollment_of(student, course_id) is Some {
                    r == Err::<(), PerwerdeError>(PerwerdeError::AlreadyEnrolled)
                } else {
                    &&& r is Ok
                    &&& final(self).enrollment_of(student, course_id) == Some(Enrollment {
                        student,
                        course_id,
                        enrolled_at: now,
                        completed_at: None,
                        points_earned: 0,
                    })
                    &&& forall|a: AccountId, c: u32| (a != student || c != course_id) ==> #[trigger] final(self).enrollment_of(a, c)
                        == old(self).enrollment_of(a, c)
                    &&& final(self).courses_of(student) == old(self).courses_of(student).push(course_id)
                    &&& forall|a: AccountId| a != student ==> #[trigger] final(self).courses_of(a) == old(self).courses_of(a)
                    &&& final(self).courses == old(self).courses
                    &&& final(self).next_course_id == old(self).next_course_id
                    &&& final(self).events@ == old(self).events@.push(PerwerdeEvent::StudentEnrolled { student, course_id })
                }
            },
    {
        let student = match ensure_signed(origin) {
            Some(w) => w,
            None => return Err(PerwerdeError::BadOrigin),
        };
        let active = match self.courses.get(course_id as u64) {
            Some(c) => c.status == CourseStatus::Active,
            None => return Err(PerwerdeError::CourseNotFound),
        };
        if !active {
            return Err(PerwerdeError::CourseNotActive);
        }
        let enrolled = match self.enrollments.get(student) {
            Some(m) => m.contains_key(course_id as u64),
            None => false,
        };
        if enrolled {
            return Err(PerwerdeError::AlreadyEnrolled);
        }
        let mut inner = match self.enrollments.remove(student) {
            Some(m) => m,
            None => KeyMap::new(),
        };
        inner.insert(
            course_id as u64,
            Enrollment { student, course_id, enrolled_at: now, completed_at: None, points_earned: 0 },
        );
        self.enrollments.insert(student, inner);
        let mut list = match self.student_courses.remove(student) {
            Some(v) => v,
            None => Vec::new(),
        };
        list.push(course_id);
        self.student_courses.insert(student, list);
        self.events.push(PerwerdeEvent::StudentEnrolled { student, course_id });
        proof {
            assert forall|a: AccountId, c: u32| (a != student || c != course_id) implies #[trigger] self.enrollment_of(a, c)
                == old(self).enrollment_of(a, c) by {
                if a == student && c as u64 == course_id as u64 {
                    assert(c == course_id);
                }
            }
        }
        Ok(())
    }

    /// `complete_course`: a signed student completes, at block `now`, a course it is
    /// enrolled in and has not completed, earning `points`.
    pub fn complete_course(&mut self, origin: Origin, course_id: u32, points: u32, now: BlockNumber) -> (r: Result<(), PerwerdeError>)
        ensures
            r is Err ==> *final(self) == *old(self),
            signer_of(origin) is None ==> r == Err::<(), PerwerdeError>(PerwerdeError::BadOrigin),
            signer_of(origin) matches Some(student) ==> {
                match old(self).enrollment_of(student, course_id) {
                    None => r == Err::<(), PerwerdeError>(PerwerdeError::NotEnrolled),
                    Some(e) => if e.completed_at is Some {
                        r == Err::<(), PerwerdeError>(PerwerdeError::CourseAlreadyCompleted)
                    } else {
                        &&& r is Ok
                        &&& final(self).enrollment_of(student, course_id) == Some(Enrollment {
                            completed_at: Some(now),
                            points_earned: points,
                            ..e
                        })
                        &&& forall|a: AccountId, c: u32| (a != student || c != course_id) ==> #[trigger] final(self).enrollment_of(a, c)
                            == old(self).enrollment_of(a, c)
                        &&& final(self).student_courses == old(self).student_courses
                        &&& final(self).courses == old(self).courses
                        &&& final(self).next_course_id == old(self).next_course_id
                        &&& final(self).events@ == old(self).events@.push(
                            PerwerdeEvent::CourseCompleted { student, course_id, points },
                        )
                    },
                }
            },
    {
        let student = match ensure_signed(origin) {
            Some(w) => w,
            None => return Err(PerwerdeError::BadOrigin),
        };
        let e = match self.enrollments.get(student) {
            Some(m) => match m.get(course_id as u64) {
                Some(e) => *e,
                None => return Err(PerwerdeError::NotEnrolled),
            },
            None => return Err(PerwerdeError::NotEnrolled),
        };
        if e.completed_at.is_some() {
            return Err(PerwerdeError::CourseAlreadyCompleted);
        }
        let mut inner = match self.enrollments.remove(student) {
            Some(m) => m,
            None => KeyMap::new(),
        };
        inner.insert(course_id as u64, Enrollment { completed_at: Some(now), points_earned: points, ..e });
        self.enrollments.insert(student, inner);
        self.events.push(PerwerdeEvent::CourseCompleted { student, course_id, points });
        proof {
            assert forall|a: AccountId, c: u32| (a != student || c != course_id) implies #[trigger] self.enrollment_of(a, c)
                == old(self).enrollment_of(a, c) by {
                if a == student && c as u64 == course_id as u64 {
                    assert(c == course_id);
                }
            }
        }
        Ok(())
    }

    /// `archive_course`: the admin that owns a course archives it.
    pub fn archive_course(&mut self, origin: Origin, course_id: u32) -> (r: Result<(), PerwerdeError>)
        ensures
            r is Err ==> *final(self) == *old(self),
            old(self).admin_of(origin) is None ==> r == Err::<(), PerwerdeError>(PerwerdeError::BadOrigin),
            old(self).admin_of(origin) matches Some(caller) ==> {
                if !old(self).courses@.contains_key(course_id as u64) {
                    r == Err::<(), PerwerdeError>(PerwerdeError::CourseNotFound)
                } else if old(self).courses@[course_id as u64].owner != caller {
                    r == Err::<(), PerwerdeError>(PerwerdeError::NotCourseOwner)
                } else {
                    &&& r is Ok
                    &&& final(self).courses@.dom() == old(self).courses@.dom()
                    &&& final(self).courses@[course_id as u64].status == CourseStatus::Archived
                    &&& final(self).courses@[course_id as u64].owner == old(self).courses@[course_id as u64].owner
                    &&& final(self).courses@[course_id as u64].id == old(self).courses@[course_id as u64].id
                    &&& forall|k: u64| k != course_id as u64 ==> #[trigger] final(self).courses@[k] == old(self).courses@[k]
                    &&& final(self).enrollments == old(self).enrollments
                    &&& final(self).student_courses == old(self).student_courses
                    &&& final(self).next_course_id == old(self).next_course_id
                    &&& final(self).events@ == old(self).events@.push(PerwerdeEvent::CourseArchived { course_id })
                }
            },
    {
        let caller = match self.ensure_admin(origin) {
            Some(o) => o,
            None => return Err(PerwerdeError::BadOrigin),
        };
        let owner = match self.courses.get(course_id as u64) {
            Some(c) => c.owner,
            None => return Err(PerwerdeError::CourseNotFound),
        };
        if owner != caller {
            return Err(PerwerdeError::NotCourseOwner);
        }
        match self.courses.remove(course_id as u64) {
            Some(c) => {
                let archived = Course {
                    id: c.id,
                    owner: c.owner,
                    name: c.name,
                    description: c.description,
                    content_link: c.content_link,
                    status: CourseStatus::Archived,
                    created_at: c.created_at,
                };
                self.courses.insert(course_id as u64, archived);
                proof {
                    assert(self.courses@.dom() =~= old(self).courses@.dom());
                }
            },
            None => {},
        }
        self.events.push(PerwerdeEvent::CourseArchived { course_id });
        Ok(())
    }

    fn points_of(&self, who: AccountId) -> (r: (u64, bool))
        ensures
            r.1 ==> r.0 == self.score(who),
            !r.1 ==> self.score(who) > u32::MAX,
            r.0 <= u32::MAX,
    {
        let list = match self.student_courses.get(who) {
            Some(v) => v,
            None => {
                return (0, true);
            },
        };
        proof {
            assert(list@ == self.courses_of(who));
        }
        let ghost enr = self.enrollments_of(who);
        let mut sum: u64 = 0;
        let mut i: usize = 0;
        while i < list.len()
            invariant
                i <= list@.len(),
                list@ == self.courses_of(who),
                enr == self.enrollments_of(who),
                sum == points_over(list@.take(i as int), enr),
                sum <= u32::MAX,
            decreases list@.len() - i,
        {
            let c = list[i];
            proof {
                assert(list@.take(i + 1).drop_last() =~= list@.take(i as int));
                assert(list@.take(i + 1).last() == c);
            }
            let pts: u64 = match self.enrollments.get(who) {
                Some(m) => match m.get(c as u64) {
                    Some(e) => if e.completed_at.is_some() {
                        e.points_earned as u64
                    } else {
                        0
                    },
                    None => 0,
                },
                None => 0,
            };
            if sum + pts > u32::MAX as u64 {
                proof {
                    self.lemma_points_prefix_bound(who, (i + 1) as int);
                }
                return (0, false);
            }
            sum = sum + pts;
            i += 1;
        }
        proof {
            assert(list@.take(i as int) =~= list@);
        }
        (sum, true)
    }

    proof fn lemma_points_prefix_bound(&self, who: AccountId, n: int)
        requires
            0 <= n <= self.courses_of(who).len(),
        ensures
            points_over(self.courses_of(who).take(n), self.enrollments_of(who)) <= self.score(who),
        decreases self.courses_of(who).len() - n,
    {
        let l = self.courses_of(who);
        let enr = self.enrollments_of(who);
        if n < l.len() {
            self.lemma_points_prefix_bound(who, n + 1);
            assert(l.take(n + 1).drop_last() =~= l.take(n));
        } else {
            assert(l.take(n) =~= l);
        }
    }

    /// `get_perwerde_score`: the sum of the points of the completed courses that `who`
    /// enrolled in.
    pub fn get_perwerde_score(&self, who: AccountId) -> (r: u32)
        requires
            self.score(who) <= u32::MAX,
        ensures
            r == self.score(who),
    {
        let (s, ok) = self.points_of(who);
        s as u32
    }

    /// `courses`: the course with id `course_id`, if any.
    pub fn course(&self, course_id: u32) -> (r: Option<&Course>)
        ensures
            match r {
                Some(c) => self.courses@.contains_key(course_id as u64) && *c == self.courses@[course_id as u64],
                None => !self.courses@.contains_key(course_id as u64),
            },
    {
        self.courses.get(course_id as u64)
    }

    /// `enrollments`: the enrollment of `who` in course `course_id`, if any.
    pub fn enrollment(&self, who: AccountId, course_id: u32) -> (r: Option<Enrollment>)
        ensures
            r == self.enrollment_of(who, course_id),
    {
        match self.enrollments.get(who) {
            Some(m) => match m.get(course_id as u64) {
                Some(e) => Some(*e),
                None => None,
            },
            None => None,
        }
    }
}

impl PerwerdeScoreProvider for Perwerde {
    /// The education score, saturated at the largest `u32`.
    open spec fn perwerde_score_of(&self, who: AccountId) -> u32 {
        if self.score(who) > u32::MAX {
            u32::MAX
        } else {
            self.score(who) as u32
        }
    }

    fn get_perwerde_score(&self, who: AccountId) -> (r: u32) {
        let (s, ok) = self.points_of(who);
        if ok {
            s as u32
        } else {
            u32::MAX
        }
    }
}

/// Enrolling in a course does not change a score: the new enrollment is not completed.
pub proof fn lemma_enrolling_keeps_score(list: Seq<u32>, enrollments: Map<u64, Enrollment>, c: u32, e: Enrollment)
    requires
        !enrollments.contains_key(c as u64),
        e.completed_at is None,
    ensures
        points_over(list.push(c), enrollments.insert(c as u64, e)) == points_over(list, enrollments),
{
    lemma_points_frame(list, enrollments, c, e);
    assert(list.push(c).drop_last() =~= list);
}

proof fn lemma_points_frame(list: Seq<u32>, enrollments: Map<u64, Enrollment>, c: u32, e: Enrollment)
    requires
        !enrollments.contains_key(c as u64),
        e.completed_at is None,
    ensures
        points_over(list, enrollments.insert(c as u64, e)) == points_over(list, enrollments),
    decreases list.len(),
{
    if list.len() > 0 {
        lemma_points_frame(list.drop_last(), enrollments, c, e);
    }
}

/// The weights of the calls of the pallet.
pub trait WeightInfo {
    fn create_course(db: RuntimeDbWeight, name_len: u32, desc_len: u32, link_len: u32) -> Weight;
    fn enroll(db: RuntimeDbWeight) -> Weight;
    fn complete_course(db: RuntimeDbWeight) -> Weight;
    fn archive_course(db: RuntimeDbWeight) -> Weight;
    fn benchmark_get_perwerde_score(db: RuntimeDbWeight, c: u32) -> Weight;
}

/// The benchmarked weights of the calls of the perwerde pallet, with the storage reads and writes
/// priced by the runtime's `db`.
pub struct SubstrateWeight;

impl WeightInfo for SubstrateWeight {
    fn create_course(db: RuntimeDbWeight, name_len: u32, desc_len: u32, link_len: u32) -> (out: Weight)
        ensures
            out == benchmarked(30_763_000 + 2_000 * name_len + 1_000 * desc_len + 2_000 * link_len, 0, db, 1, 2),
    {
        with_db(Weight::from_parts(30_763_000, 0)
            .saturating_add(Weight::from_parts(2_000, 0).saturating_mul(name_len as u64))
            .saturating_add(Weight::from_parts(1_000, 0).saturating_mul(desc_len as u64))
            .saturating_add(Weight::from_parts(2_000, 0).saturating_mul(link_len as u64)), db, 1, 2)
    }

    fn enroll(db: RuntimeDbWeight) -> (out: Weight)
        ensures
            out == benchmarked(36_000_000, 0, db, 2, 2),
    {
        with_db(Weight::from_parts(36_000_000, 0), db, 2, 2)
    }

    fn complete_course(db: RuntimeDbWeight) -> (out: Weight)
        ensures
            out == benchmarked(34_000_000, 0, db, 2, 2),
    {
        with_db(Weight::from_parts(34_000_000, 0), db, 2, 2)
    }

    fn archive_course(db: RuntimeDbWeight) -> (out: Weight)
        ensures
            out == benchmarked(25_000_000, 0, db, 1, 1),
    {
        with_db(Weight::from_parts(25_000_000, 0), db, 1, 1)
    }

    fn benchmark_get_perwerde_score(db: RuntimeDbWeight, c: u32) -> (out: Weight)
        ensures
            out == benchmarked(9_064_500 + 1_000 * c, 0, db, 1, 0),
    {
        with_db(Weight::from_parts(9_064_500, 0).saturating_add(Weight::from_parts(1_000, 0).saturating_mul(c as u64)), db, 1, 0)
    }
}

} // verus!
