use pezkuwi_pallets::perwerde::{CourseStatus, Perwerde, PerwerdeConfig, PerwerdeError, PerwerdeEvent};
use pezkuwi_pallets::primitives::Origin;
use pezkuwi_pallets::trust::PerwerdeScoreProvider;

const ADMIN: u64 = 0;

/// Account 0 is the only admin.
fn new_test_ext() -> Perwerde {
    Perwerde::new(PerwerdeConfig {
        admins: vec![ADMIN],
        max_course_name_length: 100,
        max_course_desc_length: 500,
        max_course_link_length: 200,
        max_students_per_course: 100,
    })
}

fn create(p: &mut Perwerde, origin: Origin, name: &[u8]) -> Result<(), PerwerdeError> {
    p.create_course(origin, name.to_vec(), b"Giris seviyesi".to_vec(), b"http://example.com".to_vec(), 1)
}

#[test]
fn create_course_works() {
    let mut p = new_test_ext();
    assert_eq!(
        p.create_course(
            Origin::Signed(ADMIN),
            b"Blockchain 101".to_vec(),
            b"Giris seviyesi".to_vec(),
            b"http://example.com".to_vec(),
            1
        ),
        Ok(())
    );
    let course = p.course(0).expect("course 0 exists");
    assert_eq!(course.owner, ADMIN);
    assert_eq!(course.name, b"Blockchain 101".to_vec());
    assert_eq!(course.status, CourseStatus::Active);
    assert_eq!(p.events.last(), Some(&PerwerdeEvent::CourseCreated { course_id: 0, owner: ADMIN }));
    assert_eq!(p.next_course_id, 1);
}

#[test]
fn create_course_fails_for_non_admin() {
    let mut p = new_test_ext();
    assert_eq!(create(&mut p, Origin::Signed(2), b"Hacking 101"), Err(PerwerdeError::BadOrigin));
    assert!(p.course(0).is_none());
    assert!(p.events.is_empty());
}

#[test]
fn enroll_complete_and_score() {
    let mut p = new_test_ext();
    assert_eq!(create(&mut p, Origin::Signed(ADMIN), b"A"), Ok(()));
    assert_eq!(create(&mut p, Origin::Signed(ADMIN), b"B"), Ok(()));
    assert_eq!(p.enroll(Origin::Signed(7), 0, 10), Ok(()));
    assert_eq!(p.enroll(Origin::Signed(7), 0, 11), Err(PerwerdeError::AlreadyEnrolled));
    assert_eq!(p.enroll(Origin::Signed(7), 5, 11), Err(PerwerdeError::CourseNotFound));
    assert_eq!(p.enroll(Origin::Signed(7), 1, 12), Ok(()));
    // Enrolling alone earns nothing.
    assert_eq!(p.get_perwerde_score(7), 0);
    assert_eq!(p.complete_course(Origin::Signed(7), 0, 40, 20), Ok(()));
    assert_eq!(p.complete_course(Origin::Signed(7), 0, 40, 21), Err(PerwerdeError::CourseAlreadyCompleted));
    assert_eq!(p.complete_course(Origin::Signed(8), 0, 40, 21), Err(PerwerdeError::NotEnrolled));
    assert_eq!(p.complete_course(Origin::Signed(7), 1, 15, 22), Ok(()));
    assert_eq!(p.get_perwerde_score(7), 55);
    let e = p.enrollment(7, 0).expect("enrolled");
    assert_eq!(e.completed_at, Some(20));
    assert_eq!(e.points_earned, 40);
    assert_eq!(e.enrolled_at, 10);
    // The trust pallet reads the same score.
    assert_eq!(PerwerdeScoreProvider::get_perwerde_score(&p, 7), 55);
}

#[test]
fn archive_course_by_owner_only() {
    let mut p = new_test_ext();
    assert_eq!(create(&mut p, Origin::Signed(ADMIN), b"A"), Ok(()));
    assert_eq!(p.archive_course(Origin::Signed(3), 0), Err(PerwerdeError::BadOrigin));
    assert_eq!(p.archive_course(Origin::Signed(ADMIN), 9), Err(PerwerdeError::CourseNotFound));
    assert_eq!(p.archive_course(Origin::Signed(ADMIN), 0), Ok(()));
    assert_eq!(p.course(0).unwrap().status, CourseStatus::Archived);
    assert_eq!(p.enroll(Origin::Signed(7), 0, 10), Err(PerwerdeError::CourseNotActive));
    assert_eq!(p.events.last(), Some(&PerwerdeEvent::CourseArchived { course_id: 0 }));
}

#[test]
fn unsigned_calls_are_refused() {
    let mut p = new_test_ext();
    assert_eq!(create(&mut p, Origin::Root, b"A"), Err(PerwerdeError::BadOrigin));
    assert_eq!(create(&mut p, Origin::Signed(ADMIN), b"A"), Ok(()));
    assert_eq!(p.enroll(Origin::Unsigned, 0, 1), Err(PerwerdeError::BadOrigin));
    assert_eq!(p.complete_course(Origin::Root, 0, 1, 1), Err(PerwerdeError::BadOrigin));
}

#[test]
fn a_full_course_list_still_gets_the_ordinary_errors() {
    let mut p = Perwerde::new(PerwerdeConfig {
        admins: vec![ADMIN],
        max_course_name_length: 100,
        max_course_desc_length: 500,
        max_course_link_length: 200,
        max_students_per_course: 1,
    });
    assert_eq!(create(&mut p, Origin::Signed(ADMIN), b"A"), Ok(()));
    assert_eq!(p.enroll(Origin::Signed(7), 0, 1), Ok(()));
    assert_eq!(p.enroll(Origin::Signed(7), 0, 2), Err(PerwerdeError::AlreadyEnrolled));
    assert_eq!(p.enroll(Origin::Signed(7), 4, 2), Err(PerwerdeError::CourseNotFound));
    // A course name beyond the limit is refused only for admins; others get `BadOrigin`.
    assert_eq!(create(&mut p, Origin::Signed(3), &[b'x'; 300]), Err(PerwerdeError::BadOrigin));
}
