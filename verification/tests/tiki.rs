use pezkuwi_pallets::identity_kyc::{IdentityKyc, KycConfig, KycLevel};
use pezkuwi_pallets::primitives::Origin;
use pezkuwi_pallets::tiki::{
    can_grant_role_type, citizen_metadata_bytes, get_bonus_for_tiki, get_role_assignment_type, is_unique_role,
    EnsureTiki, GetTiki, ParlementerRole, RoleAssignmentType, SerokRole, Tiki, TikiConfig, TikiError, TikiEvent,
    TikiPallet, TikiProvider, WezirRole,
};

fn new_test_ext() -> TikiPallet {
    TikiPallet::new(TikiConfig { collection_id: 0, max_tikis_per_user: 100 }, 256)
}

fn new_kyc() -> IdentityKyc {
    IdentityKyc::new(KycConfig { application_deposit: 100, max_string_length: 50, max_cid_length: 100 })
}

#[test]
fn force_mint_citizen_nft_works() {
    let mut t = new_test_ext();
    let user = 2;
    assert_eq!(t.citizen_nft(user), None);
    assert!(t.user_tikis(user).is_empty());
    assert!(!t.is_citizen(user));
    assert!(t.force_mint_citizen_nft(Origin::Root, user).is_ok());
    assert!(t.citizen_nft(user).is_some());
    assert!(t.is_citizen(user));
    assert!(t.user_tikis(user).contains(&Tiki::Hemwelati));
    assert!(t.has_tiki(user, &Tiki::Hemwelati));
    assert!(t.events.contains(&TikiEvent::CitizenNftMinted { who: user, nft_id: t.citizen_nft(user).unwrap() }));
}

#[test]
fn grant_appointed_role_works() {
    let mut t = new_test_ext();
    let user = 2;
    assert!(t.force_mint_citizen_nft(Origin::Root, user).is_ok());
    assert!(t.grant_tiki(Origin::Root, user, Tiki::Wezir).is_ok());
    let tikis = t.user_tikis(user);
    assert!(tikis.contains(&Tiki::Hemwelati));
    assert!(tikis.contains(&Tiki::Wezir));
    assert!(t.has_tiki(user, &Tiki::Wezir));
    assert!(t.events.contains(&TikiEvent::TikiGranted { who: user, tiki: Tiki::Wezir }));
}

#[test]
fn cannot_grant_elected_role_through_admin() {
    let mut t = new_test_ext();
    assert!(t.force_mint_citizen_nft(Origin::Root, 2).is_ok());
    assert_eq!(t.grant_tiki(Origin::Root, 2, Tiki::Parlementer), Err(TikiError::InvalidRoleAssignmentMethod));
}

#[test]
fn apply_for_citizenship_works_with_kyc() {
    let mut t = new_test_ext();
    let mut kyc = new_kyc();
    kyc.kyc_statuses.insert(2, KycLevel::Approved);
    assert!(t.apply_for_citizenship(&kyc, Origin::Signed(2)).is_ok());
    assert!(t.citizen_nft(2).is_some());
    assert!(t.user_tikis(2).contains(&Tiki::Hemwelati));
    assert!(t.is_citizen(2));
}

#[test]
fn apply_for_citizenship_fails_without_kyc() {
    let mut t = new_test_ext();
    let kyc = new_kyc();
    assert_eq!(t.apply_for_citizenship(&kyc, Origin::Signed(2)), Err(TikiError::KycNotCompleted));
    assert!(!t.is_citizen(2));
}

#[test]
fn auto_grant_citizenship_simplified() {
    let mut t = new_test_ext();
    let mut kyc = new_kyc();
    assert!(t.auto_grant_citizenship(&kyc, 2).is_ok());
    assert!(t.citizen_nft(2).is_none());
    kyc.kyc_statuses.insert(2, KycLevel::Approved);
    assert!(t.auto_grant_citizenship(&kyc, 2).is_ok());
    assert_eq!(t.citizen_nft(2), Some(0));
}

#[test]
fn role_assignment_types_work_correctly() {
    assert_eq!(get_role_assignment_type(&Tiki::Hemwelati), RoleAssignmentType::Automatic);
    assert_eq!(get_role_assignment_type(&Tiki::Wezir), RoleAssignmentType::Appointed);
    assert_eq!(get_role_assignment_type(&Tiki::Parlementer), RoleAssignmentType::Elected);
    assert_eq!(get_role_assignment_type(&Tiki::Serok), RoleAssignmentType::Elected);
    assert_eq!(get_role_assignment_type(&Tiki::Axa), RoleAssignmentType::Earned);
    assert_eq!(get_role_assignment_type(&Tiki::SerokeKomele), RoleAssignmentType::Earned);
    assert!(can_grant_role_type(&Tiki::Wezir, &RoleAssignmentType::Appointed));
    assert!(can_grant_role_type(&Tiki::Parlementer, &RoleAssignmentType::Elected));
    assert!(can_grant_role_type(&Tiki::Axa, &RoleAssignmentType::Earned));
    assert!(!can_grant_role_type(&Tiki::Wezir, &RoleAssignmentType::Elected));
    assert!(!can_grant_role_type(&Tiki::Parlementer, &RoleAssignmentType::Appointed));
    assert!(!can_grant_role_type(&Tiki::Serok, &RoleAssignmentType::Appointed));
}

#[test]
fn grant_earned_role_works() {
    let mut t = new_test_ext();
    assert!(t.force_mint_citizen_nft(Origin::Root, 2).is_ok());
    assert!(t.grant_earned_role(Origin::Root, 2, Tiki::Axa).is_ok());
    assert!(t.user_tikis(2).contains(&Tiki::Axa));
    assert!(t.has_tiki(2, &Tiki::Axa));
}

#[test]
fn grant_elected_role_works() {
    let mut t = new_test_ext();
    assert!(t.force_mint_citizen_nft(Origin::Root, 2).is_ok());
    assert!(t.grant_elected_role(Origin::Root, 2, Tiki::Parlementer).is_ok());
    assert!(t.user_tikis(2).contains(&Tiki::Parlementer));
    assert!(t.has_tiki(2, &Tiki::Parlementer));
}

#[test]
fn unique_roles_work_correctly() {
    let mut t = new_test_ext();
    assert!(t.force_mint_citizen_nft(Origin::Root, 2).is_ok());
    assert!(t.force_mint_citizen_nft(Origin::Root, 3).is_ok());
    assert!(t.grant_elected_role(Origin::Root, 2, Tiki::Serok).is_ok());
    assert_eq!(t.grant_elected_role(Origin::Root, 3, Tiki::Serok), Err(TikiError::RoleAlreadyTaken));
    assert_eq!(t.tiki_holder(&Tiki::Serok), Some(2));
}

#[test]
fn unique_role_identification_works() {
    assert!(is_unique_role(&Tiki::Serok));
    assert!(is_unique_role(&Tiki::SerokiMeclise));
    assert!(is_unique_role(&Tiki::Xezinedar));
    assert!(is_unique_role(&Tiki::Balyoz));
    assert!(!is_unique_role(&Tiki::Wezir));
    assert!(!is_unique_role(&Tiki::Parlementer));
    assert!(!is_unique_role(&Tiki::Hemwelati));
    assert!(!is_unique_role(&Tiki::Mamoste));
}

#[test]
fn revoke_tiki_works() {
    let mut t = new_test_ext();
    assert!(t.force_mint_citizen_nft(Origin::Root, 2).is_ok());
    assert!(t.grant_tiki(Origin::Root, 2, Tiki::Wezir).is_ok());
    assert!(t.user_tikis(2).contains(&Tiki::Wezir));
    assert!(t.revoke_tiki(Origin::Root, 2, Tiki::Wezir).is_ok());
    assert!(!t.user_tikis(2).contains(&Tiki::Wezir));
    assert!(!t.has_tiki(2, &Tiki::Wezir));
    assert!(t.user_tikis(2).contains(&Tiki::Hemwelati));
    assert!(t.events.contains(&TikiEvent::TikiRevoked { who: 2, tiki: Tiki::Wezir }));
}

#[test]
fn cannot_revoke_hemwelati_role() {
    let mut t = new_test_ext();
    assert!(t.force_mint_citizen_nft(Origin::Root, 2).is_ok());
    assert_eq!(t.revoke_tiki(Origin::Root, 2, Tiki::Hemwelati), Err(TikiError::RoleNotAssigned));
    assert!(t.has_tiki(2, &Tiki::Hemwelati));
}

#[test]
fn revoke_unique_role_clears_holder() {
    let mut t = new_test_ext();
    assert!(t.force_mint_citizen_nft(Origin::Root, 2).is_ok());
    assert!(t.grant_elected_role(Origin::Root, 2, Tiki::Serok).is_ok());
    assert_eq!(t.tiki_holder(&Tiki::Serok), Some(2));
    assert!(t.revoke_tiki(Origin::Root, 2, Tiki::Serok).is_ok());
    assert_eq!(t.tiki_holder(&Tiki::Serok), None);
    assert!(!t.user_tikis(2).contains(&Tiki::Serok));
}

#[test]
fn tiki_scoring_works_correctly() {
    let mut t = new_test_ext();
    assert!(t.force_mint_citizen_nft(Origin::Root, 2).is_ok());
    assert_eq!(t.get_tiki_score(2), 10);
    assert!(t.grant_elected_role(Origin::Root, 2, Tiki::Serok).is_ok());
    assert_eq!(t.get_tiki_score(2), 210);
    assert!(t.grant_earned_role(Origin::Root, 2, Tiki::Axa).is_ok());
    assert_eq!(t.get_tiki_score(2), 460);
}

#[test]
fn scoring_system_comprehensive() {
    assert_eq!(get_bonus_for_tiki(&Tiki::Axa), 250);
    assert_eq!(get_bonus_for_tiki(&Tiki::ReveberProjeye), 250);
    assert_eq!(get_bonus_for_tiki(&Tiki::Serok), 200);
    assert_eq!(get_bonus_for_tiki(&Tiki::ModeratoreCivake), 200);
    assert_eq!(get_bonus_for_tiki(&Tiki::EndameDiwane), 175);
    assert_eq!(get_bonus_for_tiki(&Tiki::SerokiMeclise), 150);
    assert_eq!(get_bonus_for_tiki(&Tiki::Dadger), 150);
    assert_eq!(get_bonus_for_tiki(&Tiki::Wezir), 125);
    assert_eq!(get_bonus_for_tiki(&Tiki::Dozger), 120);
    assert_eq!(get_bonus_for_tiki(&Tiki::SerokeKomele), 100);
    assert_eq!(get_bonus_for_tiki(&Tiki::Parlementer), 100);
    assert_eq!(get_bonus_for_tiki(&Tiki::Xezinedar), 100);
    assert_eq!(get_bonus_for_tiki(&Tiki::PisporeEwlehiyaSiber), 100);
    assert_eq!(get_bonus_for_tiki(&Tiki::Bazargan), 60);
    assert_eq!(get_bonus_for_tiki(&Tiki::Mela), 50);
    assert_eq!(get_bonus_for_tiki(&Tiki::Feqi), 50);
    assert_eq!(get_bonus_for_tiki(&Tiki::Hemwelati), 10);
    assert_eq!(get_bonus_for_tiki(&Tiki::Peseng), 5);
}

#[test]
fn scoring_updates_after_role_changes() {
    let mut t = new_test_ext();
    assert!(t.force_mint_citizen_nft(Origin::Root, 2).is_ok());
    assert!(t.grant_tiki(Origin::Root, 2, Tiki::Wezir).is_ok());
    assert!(t.grant_tiki(Origin::Root, 2, Tiki::Dadger).is_ok());
    assert_eq!(t.get_tiki_score(2), 285);
    assert!(t.revoke_tiki(Origin::Root, 2, Tiki::Wezir).is_ok());
    assert_eq!(t.get_tiki_score(2), 160);
}

#[test]
fn multiple_users_work_independently() {
    let mut t = new_test_ext();
    assert!(t.force_mint_citizen_nft(Origin::Root, 2).is_ok());
    assert!(t.force_mint_citizen_nft(Origin::Root, 3).is_ok());
    assert!(t.grant_earned_role(Origin::Root, 2, Tiki::Axa).is_ok());
    assert!(t.grant_tiki(Origin::Root, 3, Tiki::Wezir).is_ok());
    assert_eq!(t.get_tiki_score(2), 260);
    assert_eq!(t.get_tiki_score(3), 135);
    assert!(t.user_tikis(2).contains(&Tiki::Axa));
    assert!(!t.user_tikis(2).contains(&Tiki::Wezir));
    assert!(t.user_tikis(3).contains(&Tiki::Wezir));
    assert!(!t.user_tikis(3).contains(&Tiki::Axa));
    assert!(t.has_tiki(2, &Tiki::Axa));
    assert!(!t.has_tiki(2, &Tiki::Wezir));
    assert_eq!(t.get_user_tikis(2).len(), 2);
}

#[test]
fn cannot_grant_role_without_citizen_nft() {
    let mut t = new_test_ext();
    assert_eq!(t.grant_tiki(Origin::Root, 2, Tiki::Wezir), Err(TikiError::CitizenNftNotFound));
}

#[test]
fn nft_id_increments_correctly() {
    let mut t = new_test_ext();
    let users = vec![2u64, 3, 4];
    for (i, user) in users.iter().enumerate() {
        assert!(t.force_mint_citizen_nft(Origin::Root, *user).is_ok());
        assert_eq!(t.citizen_nft(*user), Some(i as u32));
    }
    assert_eq!(t.next_item_id(), users.len() as u32);
}

#[test]
fn duplicate_roles_not_allowed() {
    let mut t = new_test_ext();
    assert!(t.force_mint_citizen_nft(Origin::Root, 2).is_ok());
    assert!(t.grant_earned_role(Origin::Root, 2, Tiki::Mamoste).is_ok());
    assert_eq!(t.grant_earned_role(Origin::Root, 2, Tiki::Mamoste), Err(TikiError::UserAlreadyHasRole));
}

#[test]
fn citizen_nft_already_exists_error() {
    let mut t = new_test_ext();
    assert!(t.force_mint_citizen_nft(Origin::Root, 2).is_ok());
    assert_eq!(t.force_mint_citizen_nft(Origin::Root, 2), Err(TikiError::CitizenNftAlreadyExists));
}

#[test]
fn cannot_revoke_role_user_does_not_have() {
    let mut t = new_test_ext();
    assert!(t.force_mint_citizen_nft(Origin::Root, 2).is_ok());
    assert_eq!(t.revoke_tiki(Origin::Root, 2, Tiki::Wezir), Err(TikiError::RoleNotAssigned));
}

#[test]
fn nft_transfer_protection_works() {
    let mut t = new_test_ext();
    assert!(t.force_mint_citizen_nft(Origin::Root, 2).is_ok());
    assert_eq!(t.check_transfer_permission(Origin::Signed(2), 0, 0, 2, 3), Err(TikiError::NonTransferable));
}

#[test]
fn non_tiki_nft_transfer_allowed() {
    let t = new_test_ext();
    assert!(t.check_transfer_permission(Origin::Signed(2), 1, 0, 2, 3).is_ok());
}

#[test]
fn tiki_provider_trait_works() {
    let mut t = new_test_ext();
    assert!(t.force_mint_citizen_nft(Origin::Root, 2).is_ok());
    assert!(t.grant_tiki(Origin::Root, 2, Tiki::Wezir).is_ok());
    assert!(t.is_citizen(2));
    assert!(t.has_tiki(2, &Tiki::Hemwelati));
    assert!(t.has_tiki(2, &Tiki::Wezir));
    assert!(!t.has_tiki(2, &Tiki::Serok));
    let tikis = t.get_user_tikis(2);
    assert_eq!(tikis.len(), 2);
    assert!(tikis.contains(&Tiki::Hemwelati));
    assert!(tikis.contains(&Tiki::Wezir));
}

#[test]
fn complex_multi_role_scenario() {
    let mut t = new_test_ext();
    assert!(t.force_mint_citizen_nft(Origin::Root, 2).is_ok());
    assert!(t.grant_tiki(Origin::Root, 2, Tiki::Wezir).is_ok());
    assert!(t.grant_earned_role(Origin::Root, 2, Tiki::Mamoste).is_ok());
    assert!(t.grant_elected_role(Origin::Root, 2, Tiki::Parlementer).is_ok());
    let tikis = t.user_tikis(2);
    assert!(tikis.contains(&Tiki::Hemwelati));
    assert!(tikis.contains(&Tiki::Wezir));
    assert!(tikis.contains(&Tiki::Mamoste));
    assert!(tikis.contains(&Tiki::Parlementer));
    assert_eq!(t.get_tiki_score(2), 305);
    assert!(t.revoke_tiki(Origin::Root, 2, Tiki::Wezir).is_ok());
    assert_eq!(t.get_tiki_score(2), 180);
}

#[test]
fn role_assignment_type_logic_comprehensive() {
    assert_eq!(get_role_assignment_type(&Tiki::Hemwelati), RoleAssignmentType::Automatic);
    assert_eq!(get_role_assignment_type(&Tiki::Parlementer), RoleAssignmentType::Elected);
    assert_eq!(get_role_assignment_type(&Tiki::SerokiMeclise), RoleAssignmentType::Elected);
    assert_eq!(get_role_assignment_type(&Tiki::Serok), RoleAssignmentType::Elected);
    assert_eq!(get_role_assignment_type(&Tiki::Axa), RoleAssignmentType::Earned);
    assert_eq!(get_role_assignment_type(&Tiki::SerokeKomele), RoleAssignmentType::Earned);
    assert_eq!(get_role_assignment_type(&Tiki::ModeratoreCivake), RoleAssignmentType::Earned);
    assert_eq!(get_role_assignment_type(&Tiki::Mamoste), RoleAssignmentType::Earned);
    assert_eq!(get_role_assignment_type(&Tiki::Rewsenbir), RoleAssignmentType::Earned);
    assert_eq!(get_role_assignment_type(&Tiki::Wezir), RoleAssignmentType::Appointed);
    assert_eq!(get_role_assignment_type(&Tiki::Dadger), RoleAssignmentType::Appointed);
    assert_eq!(get_role_assignment_type(&Tiki::Mela), RoleAssignmentType::Appointed);
    assert_eq!(get_role_assignment_type(&Tiki::Bazargan), RoleAssignmentType::Appointed);
}

#[test]
fn stress_test_multiple_users_roles() {
    let mut t = new_test_ext();
    let users = vec![2u64, 3, 4, 5];
    for user in &users {
        assert!(t.force_mint_citizen_nft(Origin::Root, *user).is_ok());
    }
    assert!(t.grant_elected_role(Origin::Root, 2, Tiki::Serok).is_ok());
    assert!(t.grant_tiki(Origin::Root, 2, Tiki::Wezir).is_ok());
    assert!(t.grant_earned_role(Origin::Root, 3, Tiki::Mamoste).is_ok());
    assert!(t.grant_tiki(Origin::Root, 3, Tiki::PisporeEwlehiyaSiber).is_ok());
    assert!(t.grant_elected_role(Origin::Root, 4, Tiki::Parlementer).is_ok());
    assert!(t.grant_elected_role(Origin::Root, 4, Tiki::SerokiMeclise).is_ok());
    assert!(t.grant_earned_role(Origin::Root, 5, Tiki::Axa).is_ok());
    assert!(t.grant_tiki(Origin::Root, 5, Tiki::Dadger).is_ok());
    assert_eq!(t.get_tiki_score(2), 335);
    assert_eq!(t.get_tiki_score(3), 180);
    assert_eq!(t.get_tiki_score(4), 260);
    assert_eq!(t.get_tiki_score(5), 410);
    assert_eq!(t.tiki_holder(&Tiki::Serok), Some(2));
    assert_eq!(t.tiki_holder(&Tiki::SerokiMeclise), Some(4));
    let citizen_count = users.iter().filter(|u| t.is_citizen(**u)).count();
    assert_eq!(citizen_count, 4);
}

#[test]
fn maximum_roles_per_user_limit() {
    let mut t = new_test_ext();
    assert!(t.force_mint_citizen_nft(Origin::Root, 2).is_ok());
    let roles = vec![Tiki::Wezir, Tiki::Dadger, Tiki::Dozger, Tiki::Noter, Tiki::Bacgir, Tiki::Berdevk];
    for role in roles {
        if can_grant_role_type(&role, &RoleAssignmentType::Appointed) {
            assert!(t.grant_tiki(Origin::Root, 2, role).is_ok());
        }
    }
    let tikis = t.user_tikis(2);
    assert!(tikis.len() >= 5);
    assert!(tikis.len() <= 100);
    assert!(t.get_tiki_score(2) > 200);
}

#[test]
fn roles_limited_by_configured_maximum() {
    let mut t = TikiPallet::new(TikiConfig { collection_id: 0, max_tikis_per_user: 2 }, 256);
    assert!(t.force_mint_citizen_nft(Origin::Root, 2).is_ok());
    assert!(t.grant_tiki(Origin::Root, 2, Tiki::Wezir).is_ok());
    assert_eq!(t.grant_tiki(Origin::Root, 2, Tiki::Dadger), Err(TikiError::ExceedsMaxRolesPerUser));
    assert_eq!(t.grant_tiki(Origin::Signed(2), 2, Tiki::Dadger), Err(TikiError::BadOrigin));
}

#[test]
fn citizen_nft_metadata_follows_roles() {
    let mut t = new_test_ext();
    assert!(t.force_mint_citizen_nft(Origin::Root, 7).is_ok());
    let id = t.citizen_nft(7).unwrap() as u64;
    assert_eq!(t.nfts.items.get(id).unwrap().metadata, b"{\"citizen\":true,\"roles\":1,\"score\":10}".to_vec());
    assert!(t.nfts.items.get(id).unwrap().locked);
    assert_eq!(t.nfts.owner_of(id as u32), Some(7));
    assert!(t.grant_earned_role(Origin::Root, 7, Tiki::Axa).is_ok());
    assert_eq!(t.nfts.items.get(id).unwrap().metadata, b"{\"citizen\":true,\"roles\":2,\"score\":260}".to_vec());
    assert_eq!(citizen_metadata_bytes(3, 1234), b"{\"citizen\":true,\"roles\":3,\"score\":1234}".to_vec());
}

#[test]
fn metadata_longer_than_string_limit_is_refused() {
    let mut t = TikiPallet::new(TikiConfig { collection_id: 0, max_tikis_per_user: 100 }, 30);
    assert_eq!(t.force_mint_citizen_nft(Origin::Root, 2), Err(TikiError::MetadataTooLong));
    assert!(!t.is_citizen(2));
    assert_eq!(t.next_item_id(), 0);
}

#[test]
fn revoke_then_grant_restores_roles() {
    let mut t = new_test_ext();
    assert!(t.force_mint_citizen_nft(Origin::Root, 2).is_ok());
    let before = t.user_tikis(2);
    assert!(t.grant_elected_role(Origin::Root, 2, Tiki::Serok).is_ok());
    assert!(t.revoke_tiki(Origin::Root, 2, Tiki::Serok).is_ok());
    assert_eq!(t.user_tikis(2), before);
    assert_eq!(t.tiki_holder(&Tiki::Serok), None);
    assert_eq!(t.get_tiki_score(2), 10);
}

#[test]
fn ensure_tiki_admits_holders_of_the_role() {
    let mut t = new_test_ext();
    assert!(t.force_mint_citizen_nft(Origin::Root, 2).is_ok());
    assert!(t.grant_elected_role(Origin::Root, 2, Tiki::Serok).is_ok());
    assert_eq!(SerokRole::tiki(), Tiki::Serok);
    assert_eq!(WezirRole::tiki(), Tiki::Wezir);
    assert_eq!(ParlementerRole::tiki(), Tiki::Parlementer);
    assert_eq!(EnsureTiki::try_origin::<SerokRole>(&t, Origin::Signed(2)), Ok(2));
    assert_eq!(EnsureTiki::try_origin::<SerokRole>(&t, Origin::Signed(3)), Err(Origin::Signed(3)));
    assert_eq!(EnsureTiki::try_origin::<SerokRole>(&t, Origin::Root), Err(Origin::Root));
    assert!(t.grant_tiki(Origin::Root, 2, Tiki::Wezir).is_ok());
    // A role that is not unique admits every account that holds it.
    assert_eq!(EnsureTiki::try_origin::<WezirRole>(&t, Origin::Signed(2)), Ok(2));
    assert!(t.force_mint_citizen_nft(Origin::Root, 3).is_ok());
    assert!(t.grant_elected_role(Origin::Root, 3, Tiki::Parlementer).is_ok());
    assert!(t.force_mint_citizen_nft(Origin::Root, 4).is_ok());
    assert!(t.grant_elected_role(Origin::Root, 4, Tiki::Parlementer).is_ok());
    assert_eq!(EnsureTiki::try_origin::<ParlementerRole>(&t, Origin::Signed(3)), Ok(3));
    assert_eq!(EnsureTiki::try_origin::<ParlementerRole>(&t, Origin::Signed(4)), Ok(4));
    assert_eq!(EnsureTiki::try_origin::<ParlementerRole>(&t, Origin::Signed(2)), Err(Origin::Signed(2)));
}

#[test]
fn hook_mints_for_approved_accounts() {
    let mut t = new_test_ext();
    let mut kyc = new_kyc();
    kyc.kyc_statuses.insert(4, KycLevel::Approved);
    kyc.kyc_statuses.insert(5, KycLevel::Pending);
    kyc.kyc_statuses.insert(6, KycLevel::Approved);
    let db = pezkuwi_pallets::primitives::RuntimeDbWeight { read: 25, write: 100 };
    let w = t.on_initialize(&kyc, 1, db);
    assert_eq!(w.ref_time, 10 * 25 + 5 * 100);
    assert_eq!(t.citizen_nft(4), Some(0));
    assert_eq!(t.citizen_nft(5), None);
    assert_eq!(t.citizen_nft(6), Some(1));
    t.on_initialize(&kyc, 2, db);
    assert_eq!(t.next_item_id(), 2);
}

#[test]
fn tiki_provider_reads_roles_and_citizenship() {
    let mut t = new_test_ext();
    assert!(t.force_mint_citizen_nft(Origin::Root, 4).is_ok());
    assert!(t.grant_tiki(Origin::Root, 4, Tiki::Wezir).is_ok());
    assert!(TikiProvider::has_tiki(&t, 4, &Tiki::Wezir));
    assert!(!TikiProvider::has_tiki(&t, 4, &Tiki::Serok));
    assert_eq!(TikiProvider::get_user_tikis(&t, 4), vec![Tiki::Hemwelati, Tiki::Wezir]);
    assert!(TikiProvider::is_citizen(&t, 4));
    assert!(!TikiProvider::is_citizen(&t, 5));
}
