//! Roles (tiki) and citizenship: every citizen holds a non-transferable citizenship NFT and
//! a list of roles, each of which adds to the citizen's tiki score.
use vstd::prelude::*;
use crate::primitives::{AccountId, BlockNumber, Origin, RuntimeDbWeight, Weight, signer_of, ensure_signed};
use crate::identity_kyc::{CitizenNftProvider, IdentityKyc, KycLevel, KycStatus};
use crate::nfts::{NftCollection, NftError};
use crate::storage::KeyMap;

verus! {

/// The roles of the ecosystem, from citizenship (`Hemwelati`) to the offices of state.
#[derive(Clone, Copy, Debug, PartialEq, Eq, Structural)]
pub enum Tiki {
    Hemwelati,
    Parlementer,
    SerokiMeclise,
    Serok,
    Wezir,
    EndameDiwane,
    Dadger,
    Dozger,
    Hiquqnas,
    Noter,
    Xezinedar,
    Bacgir,
    GerinendeyeCavkaniye,
    OperatoreTore,
    PisporeEwlehiyaSiber,
    GerinendeyeDaneye,
    Berdevk,
    Qeydkar,
    Balyoz,
    Navbeynkar,
    ParezvaneCandi,
    Mufetis,
    KaliteKontrolker,
    Mela,
    Feqi,
    Perwerdekar,
    Rewsenbir,
    ReveberProjeye,
    SerokeKomele,
    ModeratoreCivake,
    Axa,
    Peseng,
    Sewirmend,
    Hekem,
    Mamoste,
    Bazargan,
    SerokWeziran,
    WezireDarayiye,
    WezireParez,
    WezireDad,
    WezireBelaw,
    WezireTend,
    WezireAva,
    WezireCand,
}

/// How a role is assigned.
#[derive(Clone, Copy, Debug, PartialEq, Eq, Structural)]
pub enum RoleAssignmentType {
    /// Given by the system (citizenship after KYC).
    Automatic,
    /// Given by the admin origin (ministers, judges, officials).
    Appointed,
    /// Given through an election.
    Elected,
    /// Given through an exam or an achievement.
    Earned,
}

/// The number of roles.
pub const TIKI_COUNT: u32 = 44;

/// The position of a role in the declaration of `Tiki` (its `u32` encoding).
pub open spec fn tiki_index(t: Tiki) -> u32 {
    match t {
        Tiki::Hemwelati => 0,
        Tiki::Parlementer => 1,
        Tiki::SerokiMeclise => 2,
        Tiki::Serok => 3,
        Tiki::Wezir => 4,
        Tiki::EndameDiwane => 5,
        Tiki::Dadger => 6,
        Tiki::Dozger => 7,
        Tiki::Hiquqnas => 8,
        Tiki::Noter => 9,
        Tiki::Xezinedar => 10,
        Tiki::Bacgir => 11,
        Tiki::GerinendeyeCavkaniye => 12,
        Tiki::OperatoreTore => 13,
        Tiki::PisporeEwlehiyaSiber => 14,
        Tiki::GerinendeyeDaneye => 15,
        Tiki::Berdevk => 16,
        Tiki::Qeydkar => 17,
        Tiki::Balyoz => 18,
        Tiki::Navbeynkar => 19,
        Tiki::ParezvaneCandi => 20,
        Tiki::Mufetis => 21,
        Tiki::KaliteKontrolker => 22,
        Tiki::Mela => 23,
        Tiki::Feqi => 24,
        Tiki::Perwerdekar => 25,
        Tiki::Rewsenbir => 26,
        Tiki::ReveberProjeye => 27,
        Tiki::SerokeKomele => 28,
        Tiki::ModeratoreCivake => 29,
        Tiki::Axa => 30,
        Tiki::Peseng => 31,
        Tiki::Sewirmend => 32,
        Tiki::Hekem => 33,
        Tiki::Mamoste => 34,
        Tiki::Bazargan => 35,
        Tiki::SerokWeziran => 36,
        Tiki::WezireDarayiye => 37,
        Tiki::WezireParez => 38,
        Tiki::WezireDad => 39,
        Tiki::WezireBelaw => 40,
        Tiki::WezireTend => 41,
        Tiki::WezireAva => 42,
        Tiki::WezireCand => 43,
    }
}

/// What a role adds to the tiki score of its holder.
pub open spec fn tiki_bonus(t: Tiki) -> u32 {
    match t {
        Tiki::Hemwelati => 10,
        Tiki::Parlementer => 100,
        Tiki::SerokiMeclise => 150,
        Tiki::Serok => 200,
        Tiki::Wezir => 125,
        Tiki::EndameDiwane => 175,
        Tiki::Dadger => 150,
        Tiki::Dozger => 120,
        Tiki::Hiquqnas => 75,
        Tiki::Noter => 50,
        Tiki::Xezinedar => 100,
        Tiki::Bacgir => 50,
        Tiki::GerinendeyeCavkaniye => 40,
        Tiki::OperatoreTore => 60,
        Tiki::PisporeEwlehiyaSiber => 100,
        Tiki::GerinendeyeDaneye => 40,
        Tiki::Berdevk => 70,
        Tiki::Qeydkar => 25,
        Tiki::Balyoz => 80,
        Tiki::Navbeynkar => 30,
        Tiki::ParezvaneCandi => 25,
        Tiki::Mufetis => 90,
        Tiki::KaliteKontrolker => 30,
        Tiki::Mela => 50,
        Tiki::Feqi => 50,
        Tiki::Perwerdekar => 40,
        Tiki::Rewsenbir => 40,
        Tiki::ReveberProjeye => 250,
        Tiki::SerokeKomele => 100,
        Tiki::ModeratoreCivake => 200,
        Tiki::Axa => 250,
        Tiki::Peseng => 5,
        Tiki::Sewirmend => 20,
        Tiki::Hekem => 30,
        Tiki::Mamoste => 70,
        Tiki::Bazargan => 60,
        Tiki::SerokWeziran => 125,
        Tiki::WezireDarayiye => 100,
        Tiki::WezireParez => 100,
        Tiki::WezireDad => 100,
        Tiki::WezireBelaw => 100,
        Tiki::WezireTend => 100,
        Tiki::WezireAva => 100,
        Tiki::WezireCand => 100,
    }
}

/// Roles of which at most one account may hold each.
pub open spec fn is_unique(t: Tiki) -> bool {
    t == Tiki::Serok || t == Tiki::SerokiMeclise || t == Tiki::Xezinedar || t == Tiki::Balyoz
}

/// How each role is assigned.
pub open spec fn assignment_type_of(t: Tiki) -> RoleAssignmentType {
    match t {
        Tiki::Hemwelati => RoleAssignmentType::Automatic,
        Tiki::Parlementer | Tiki::SerokiMeclise | Tiki::Serok => RoleAssignmentType::Elected,
        Tiki::Axa | Tiki::Mamoste | Tiki::Rewsenbir | Tiki::SerokeKomele
        | Tiki::ModeratoreCivake => RoleAssignmentType::Earned,
        _ => RoleAssignmentType::Appointed,
    }
}

impl Tiki {
    /// The `u32` encoding of the role (`Into<u32>`).
    pub fn to_u32(&self) -> (r: u32)
        ensures
            r == tiki_index(*self),
            r < TIKI_COUNT,
    {
        match self {
            Tiki::Hemwelati => 0,
            Tiki::Parlementer => 1,
            Tiki::SerokiMeclise => 2,
            Tiki::Serok => 3,
            Tiki::Wezir => 4,
            Tiki::EndameDiwane => 5,
            Tiki::Dadger => 6,
            Tiki::Dozger => 7,
            Tiki::Hiquqnas => 8,
            Tiki::Noter => 9,
            Tiki::Xezinedar => 10,
            Tiki::Bacgir => 11,
            Tiki::GerinendeyeCavkaniye => 12,
            Tiki::OperatoreTore => 13,
            Tiki::PisporeEwlehiyaSiber => 14,
            Tiki::GerinendeyeDaneye => 15,
            Tiki::Berdevk => 16,
            Tiki::Qeydkar => 17,
            Tiki::Balyoz => 18,
            Tiki::Navbeynkar => 19,
            Tiki::ParezvaneCandi => 20,
            Tiki::Mufetis => 21,
            Tiki::KaliteKontrolker => 22,
            Tiki::Mela => 23,
            Tiki::Feqi => 24,
            Tiki::Perwerdekar => 25,
            Tiki::Rewsenbir => 26,
            Tiki::ReveberProjeye => 27,
            Tiki::SerokeKomele => 28,
            Tiki::ModeratoreCivake => 29,
            Tiki::Axa => 30,
            Tiki::Peseng => 31,
            Tiki::Sewirmend => 32,
            Tiki::Hekem => 33,
            Tiki::Mamoste => 34,
            Tiki::Bazargan => 35,
            Tiki::SerokWeziran => 36,
            Tiki::WezireDarayiye => 37,
            Tiki::WezireParez => 38,
            Tiki::WezireDad => 39,
            Tiki::WezireBelaw => 40,
            Tiki::WezireTend => 41,
            Tiki::WezireAva => 42,
            Tiki::WezireCand => 43,
        }
    }
}

/// Distinct roles have distinct encodings.
pub proof fn lemma_tiki_index_injective(a: Tiki, b: Tiki)
    ensures
        tiki_index(a) == tiki_index(b) ==> a == b,
        tiki_index(a) < TIKI_COUNT,
{
}

/// The bonus table of the roles: the Prime Minister adds 125 points to its holder's tiki
/// score, every minister 100, the president 200, an ambassador 80, an inspector 90, a
/// citizen 10, and so on for every role.
pub proof fn lemma_bonus_table()
    ensures
        tiki_bonus(Tiki::Hemwelati) == 10,
        tiki_bonus(Tiki::Parlementer) == 100,
        tiki_bonus(Tiki::SerokiMeclise) == 150,
        tiki_bonus(Tiki::Serok) == 200,
        tiki_bonus(Tiki::Wezir) == 125,
        tiki_bonus(Tiki::EndameDiwane) == 175,
        tiki_bonus(Tiki::Dadger) == 150,
        tiki_bonus(Tiki::Dozger) == 120,
        tiki_bonus(Tiki::Hiquqnas) == 75,
        tiki_bonus(Tiki::Noter) == 50,
        tiki_bonus(Tiki::Xezinedar) == 100,
        tiki_bonus(Tiki::Bacgir) == 50,
        tiki_bonus(Tiki::GerinendeyeCavkaniye) == 40,
        tiki_bonus(Tiki::OperatoreTore) == 60,
        tiki_bonus(Tiki::PisporeEwlehiyaSiber) == 100,
        tiki_bonus(Tiki::GerinendeyeDaneye) == 40,
        tiki_bonus(Tiki::Berdevk) == 70,
        tiki_bonus(Tiki::Qeydkar) == 25,
        tiki_bonus(Tiki::Balyoz) == 80,
        tiki_bonus(Tiki::Navbeynkar) == 30,
        tiki_bonus(Tiki::ParezvaneCandi) == 25,
        tiki_bonus(Tiki::Mufetis) == 90,
        tiki_bonus(Tiki::KaliteKontrolker) == 30,
        tiki_bonus(Tiki::Mela) == 50,
        tiki_bonus(Tiki::Feqi) == 50,
        tiki_bonus(Tiki::Perwerdekar) == 40,
        tiki_bonus(Tiki::Rewsenbir) == 40,
        tiki_bonus(Tiki::ReveberProjeye) == 250,
        tiki_bonus(Tiki::SerokeKomele) == 100,
        tiki_bonus(Tiki::ModeratoreCivake) == 200,
        tiki_bonus(Tiki::Axa) == 250,
        tiki_bonus(Tiki::Peseng) == 5,
        tiki_bonus(Tiki::Sewirmend) == 20,
        tiki_bonus(Tiki::Hekem) == 30,
        tiki_bonus(Tiki::Mamoste) == 70,
        tiki_bonus(Tiki::Bazargan) == 60,
        tiki_bonus(Tiki::SerokWeziran) == 125,
        tiki_bonus(Tiki::WezireDarayiye) == 100,
        tiki_bonus(Tiki::WezireParez) == 100,
        tiki_bonus(Tiki::WezireDad) == 100,
        tiki_bonus(Tiki::WezireBelaw) == 100,
        tiki_bonus(Tiki::WezireTend) == 100,
        tiki_bonus(Tiki::WezireAva) == 100,
        tiki_bonus(Tiki::WezireCand) == 100,
{
}

/// A holder's tiki score grows by exactly the bonus of a role added to its roles, and is the
/// citizen's 10 points alone for a citizen with no other role.
pub proof fn lemma_score_of_added_role(s: Seq<Tiki>, t: Tiki)
    ensures
        tikis_score(s.push(t)) == tikis_score(s) + tiki_bonus(t),
        tikis_score(seq![Tiki::Hemwelati]) == 10,
        tikis_score(seq![Tiki::Hemwelati, Tiki::SerokWeziran]) == 135,
{
    assert(s.push(t).drop_last() =~= s);
    assert(seq![Tiki::Hemwelati].drop_last() =~= Seq::<Tiki>::empty());
    assert(seq![Tiki::Hemwelati, Tiki::SerokWeziran].drop_last() =~= seq![Tiki::Hemwelati]);
    assert(tikis_score(Seq::<Tiki>::empty()) == 0);
    assert(tikis_score(seq![Tiki::Hemwelati]) == 10);
    assert(tikis_score(seq![Tiki::Hemwelati, Tiki::SerokWeziran]) == 135);
}

/// The classes of the roles: the president, the speaker of parliament, the treasurer and
/// the ambassador are the only roles with a single holder; citizenship is given by the
/// system; members of parliament, its speaker and the president are elected; Axa, teachers,
/// intellectuals, community leaders and moderators earn their role; every other role,
/// the Prime Minister and the ministers included, is appointed.
pub proof fn lemma_role_classes()
    ensures
        !is_unique(Tiki::Hemwelati),
        !is_unique(Tiki::Parlementer),
        is_unique(Tiki::SerokiMeclise),
        is_unique(Tiki::Serok),
        !is_unique(Tiki::Wezir),
        !is_unique(Tiki::EndameDiwane),
        !is_unique(Tiki::Dadger),
        !is_unique(Tiki::Dozger),
        !is_unique(Tiki::Hiquqnas),
        !is_unique(Tiki::Noter),
        is_unique(Tiki::Xezinedar),
        !is_unique(Tiki::Bacgir),
        !is_unique(Tiki::GerinendeyeCavkaniye),
        !is_unique(Tiki::OperatoreTore),
        !is_unique(Tiki::PisporeEwlehiyaSiber),
        !is_unique(Tiki::GerinendeyeDaneye),
        !is_unique(Tiki::Berdevk),
        !is_unique(Tiki::Qeydkar),
        is_unique(Tiki::Balyoz),
        !is_unique(Tiki::Navbeynkar),
        !is_unique(Tiki::ParezvaneCandi),
        !is_unique(Tiki::Mufetis),
        !is_unique(Tiki::KaliteKontrolker),
        !is_unique(Tiki::Mela),
        !is_unique(Tiki::Feqi),
        !is_unique(Tiki::Perwerdekar),
        !is_unique(Tiki::Rewsenbir),
        !is_unique(Tiki::ReveberProjeye),
        !is_unique(Tiki::SerokeKomele),
        !is_unique(Tiki::ModeratoreCivake),
        !is_unique(Tiki::Axa),
        !is_unique(Tiki::Peseng),
        !is_unique(Tiki::Sewirmend),
        !is_unique(Tiki::Hekem),
        !is_unique(Tiki::Mamoste),
        !is_unique(Tiki::Bazargan),
        !is_unique(Tiki::SerokWeziran),
        !is_unique(Tiki::WezireDarayiye),
        !is_unique(Tiki::WezireParez),
        !is_unique(Tiki::WezireDad),
        !is_unique(Tiki::WezireBelaw),
        !is_unique(Tiki::WezireTend),
        !is_unique(Tiki::WezireAva),
        !is_unique(Tiki::WezireCand),
        assignment_type_of(Tiki::Hemwelati) == RoleAssignmentType::Automatic,
        assignment_type_of(Tiki::Parlementer) == RoleAssignmentType::Elected,
        assignment_type_of(Tiki::SerokiMeclise) == RoleAssignmentType::Elected,
        assignment_type_of(Tiki::Serok) == RoleAssignmentType::Elected,
        assignment_type_of(Tiki::Wezir) == RoleAssignmentType::Appointed,
        assignment_type_of(Tiki::EndameDiwane) == RoleAssignmentType::Appointed,
        assignment_type_of(Tiki::Dadger) == RoleAssignmentType::Appointed,
        assignment_type_of(Tiki::Dozger) == RoleAssignmentType::Appointed,
        assignment_type_of(Tiki::Hiquqnas) == RoleAssignmentType::Appointed,
        assignment_type_of(Tiki::Noter) == RoleAssignmentType::Appointed,
        assignment_type_of(Tiki::Xezinedar) == RoleAssignmentType::Appointed,
        assignment_type_of(Tiki::Bacgir) == RoleAssignmentType::Appointed,
        assignment_type_of(Tiki::GerinendeyeCavkaniye) == RoleAssignmentType::Appointed,
        assignment_type_of(Tiki::OperatoreTore) == RoleAssignmentType::Appointed,
        assignment_type_of(Tiki::PisporeEwlehiyaSiber) == RoleAssignmentType::Appointed,
        assignment_type_of(Tiki::GerinendeyeDaneye) == RoleAssignmentType::Appointed,
        assignment_type_of(Tiki::Berdevk) == RoleAssignmentType::Appointed,
        assignment_type_of(Tiki::Qeydkar) == RoleAssignmentType::Appointed,
        assignment_type_of(Tiki::Balyoz) == RoleAssignmentType::Appointed,
        assignment_type_of(Tiki::Navbeynkar) == RoleAssignmentType::Appointed,
        assignment_type_of(Tiki::ParezvaneCandi) == RoleAssignmentType::Appointed,
        assignment_type_of(Tiki::Mufetis) == RoleAssignmentType::Appointed,
        assignment_type_of(Tiki::KaliteKontrolker) == RoleAssignmentType::Appointed,
        assignment_type_of(Tiki::Mela) == RoleAssignmentType::Appointed,
        assignment_type_of(Tiki::Feqi) == RoleAssignmentType::Appointed,
        assignment_type_of(Tiki::Perwerdekar) == RoleAssignmentType::Appointed,
        assignment_type_of(Tiki::Rewsenbir) == RoleAssignmentType::Earned,
        assignment_type_of(Tiki::ReveberProjeye) == RoleAssignmentType::Appointed,
        assignment_type_of(Tiki::SerokeKomele) == RoleAssignmentType::Earned,
        assignment_type_of(Tiki::ModeratoreCivake) == RoleAssignmentType::Earned,
        assignment_type_of(Tiki::Axa) == RoleAssignmentType::Earned,
        assignment_type_of(Tiki::Peseng) == RoleAssignmentType::Appointed,
        assignment_type_of(Tiki::Sewirmend) == RoleAssignmentType::Appointed,
        assignment_type_of(Tiki::Hekem) == RoleAssignmentType::Appointed,
        assignment_type_of(Tiki::Mamoste) == RoleAssignmentType::Earned,
        assignment_type_of(Tiki::Bazargan) == RoleAssignmentType::Appointed,
        assignment_type_of(Tiki::SerokWeziran) == RoleAssignmentType::Appointed,
        assignment_type_of(Tiki::WezireDarayiye) == RoleAssignmentType::Appointed,
        assignment_type_of(Tiki::WezireParez) == RoleAssignmentType::Appointed,
        assignment_type_of(Tiki::WezireDad) == RoleAssignmentType::Appointed,
        assignment_type_of(Tiki::WezireBelaw) == RoleAssignmentType::Appointed,
        assignment_type_of(Tiki::WezireTend) == RoleAssignmentType::Appointed,
        assignment_type_of(Tiki::WezireAva) == RoleAssignmentType::Appointed,
        assignment_type_of(Tiki::WezireCand) == RoleAssignmentType::Appointed,
{
}

/// Every role is worth at most 250 points.
pub proof fn lemma_bonus_bounded(t: Tiki)
    ensures
        tiki_bonus(t) <= 250,
{
}

/// `get_bonus_for_tiki`: what `tiki` adds to the tiki score of its holder.
pub fn get_bonus_for_tiki(tiki: &Tiki) -> (r: u32)
    ensures
        r == tiki_bonus(*tiki),
{
    match tiki {
        Tiki::Hemwelati => 10,
        Tiki::Parlementer => 100,
        Tiki::SerokiMeclise => 150,
        Tiki::Serok => 200,
        Tiki::Wezir => 125,
        Tiki::EndameDiwane => 175,
        Tiki::Dadger => 150,
        Tiki::Dozger => 120,
        Tiki::Hiquqnas => 75,
        Tiki::Noter => 50,
        Tiki::Xezinedar => 100,
        Tiki::Bacgir => 50,
        Tiki::GerinendeyeCavkaniye => 40,
        Tiki::OperatoreTore => 60,
        Tiki::PisporeEwlehiyaSiber => 100,
        Tiki::GerinendeyeDaneye => 40,
        Tiki::Berdevk => 70,
        Tiki::Qeydkar => 25,
        Tiki::Balyoz => 80,
        Tiki::Navbeynkar => 30,
        Tiki::ParezvaneCandi => 25,
        Tiki::Mufetis => 90,
        Tiki::KaliteKontrolker => 30,
        Tiki::Mela => 50,
        Tiki::Feqi => 50,
        Tiki::Perwerdekar => 40,
        Tiki::Rewsenbir => 40,
        Tiki::ReveberProjeye => 250,
        Tiki::SerokeKomele => 100,
        Tiki::ModeratoreCivake => 200,
        Tiki::Axa => 250,
        Tiki::Peseng => 5,
        Tiki::Sewirmend => 20,
        Tiki::Hekem => 30,
        Tiki::Mamoste => 70,
        Tiki::Bazargan => 60,
        Tiki::SerokWeziran => 125,
        Tiki::WezireDarayiye => 100,
        Tiki::WezireParez => 100,
        Tiki::WezireDad => 100,
        Tiki::WezireBelaw => 100,
        Tiki::WezireTend => 100,
        Tiki::WezireAva => 100,
        Tiki::WezireCand => 100,
    }
}

/// `is_unique_role`: whether at most one account may hold `tiki`.
pub fn is_unique_role(tiki: &Tiki) -> (r: bool)
    ensures
        r == is_unique(*tiki),
{
    match tiki {
        Tiki::Serok | Tiki::SerokiMeclise | Tiki::Xezinedar | Tiki::Balyoz => true,
        _ => false,
    }
}

/// `get_role_assignment_type`: how `tiki` is assigned.
pub fn get_role_assignment_type(tiki: &Tiki) -> (r: RoleAssignmentType)
    ensures
        r == assignment_type_of(*tiki),
{
    match tiki {
        Tiki::Hemwelati => RoleAssignmentType::Automatic,
        Tiki::Parlementer | Tiki::SerokiMeclise | Tiki::Serok => RoleAssignmentType::Elected,
        Tiki::Axa | Tiki::Mamoste | Tiki::Rewsenbir | Tiki::SerokeKomele
        | Tiki::ModeratoreCivake => RoleAssignmentType::Earned,
        _ => RoleAssignmentType::Appointed,
    }
}

/// `can_grant_role_type`: whether `tiki` may be given through `assignment_type`, which is
/// the case exactly when that is the role's own assignment type.
pub fn can_grant_role_type(tiki: &Tiki, assignment_type: &RoleAssignmentType) -> (r: bool)
    ensures
        r == (assignment_type_of(*tiki) == *assignment_type),
{
    let required = get_role_assignment_type(tiki);
    match (required, *assignment_type) {
        (RoleAssignmentType::Automatic, RoleAssignmentType::Automatic) => true,
        (RoleAssignmentType::Appointed, RoleAssignmentType::Appointed) => true,
        (RoleAssignmentType::Elected, RoleAssignmentType::Elected) => true,
        (RoleAssignmentType::Earned, RoleAssignmentType::Earned) => true,
        _ => false,
    }
}

/// The decimal representation of `n`, in ASCII digits.
pub open spec fn decimal(n: nat) -> Seq<u8>
    decreases n,
{
    if n < 10 {
        seq![(48 + n) as u8]
    } else {
        decimal(n / 10).push((48 + n % 10) as u8)
    }
}

/// Appends the decimal representation of `n` to `buf`.
pub fn push_decimal(buf: &mut Vec<u8>, n: u64)
    ensures
        final(buf)@ == old(buf)@ + decimal(n as nat),
    decreases n,
{
    if n >= 10 {
        push_decimal(buf, n / 10);
        buf.push((48 + n % 10) as u8);
        proof {
            assert(buf@ =~= old(buf)@ + decimal(n as nat));
        }
    } else {
        buf.push((48 + n) as u8);
        proof {
            assert(buf@ =~= old(buf)@ + decimal(n as nat));
        }
    }
}

fn push_all(buf: &mut Vec<u8>, bytes: &[u8])
    ensures
        final(buf)@ == old(buf)@ + bytes@,
{
    let mut i: usize = 0;
    while i < bytes.len()
        invariant
            i <= bytes@.len(),
            buf@ == old(buf)@ + bytes@.take(i as int),
        decreases bytes@.len() - i,
    {
        buf.push(bytes[i]);
        proof {
            assert(bytes@.take(i + 1) =~= bytes@.take(i as int).push(bytes@[i as int]));
            assert(buf@ =~= old(buf)@ + bytes@.take(i + 1));
        }
        i += 1;
    }
    proof {
        assert(bytes@.take(i as int) =~= bytes@);
    }
}

/// The metadata of a citizenship NFT whose holder has `roles` roles and tiki score `score`:
/// `{"citizen":true,"roles":<roles>,"score":<score>}`.
pub open spec fn citizen_metadata(roles: nat, score: nat) -> Seq<u8> {
    seq![123u8, 34u8, 99u8, 105u8, 116u8, 105u8, 122u8, 101u8, 110u8, 34u8, 58u8, 116u8, 114u8,
        117u8, 101u8, 44u8, 34u8, 114u8, 111u8, 108u8, 101u8, 115u8, 34u8, 58u8] + decimal(roles)
        + seq![44u8, 34u8, 115u8, 99u8, 111u8, 114u8, 101u8, 34u8, 58u8] + decimal(score)
        + seq![125u8]
}

/// Builds the metadata of a citizenship NFT.
pub fn citizen_metadata_bytes(roles: u64, score: u64) -> (r: Vec<u8>)
    ensures
        r@ == citizen_metadata(roles as nat, score as nat),
{
    let mut v: Vec<u8> = Vec::new();
    let head: [u8; 24] = [123u8, 34u8, 99u8, 105u8, 116u8, 105u8, 122u8, 101u8, 110u8, 34u8,
        58u8, 116u8, 114u8, 117u8, 101u8, 44u8, 34u8, 114u8, 111u8, 108u8, 101u8, 115u8, 34u8,
        58u8];
    push_all(&mut v, &head);
    push_decimal(&mut v, roles);
    let mid: [u8; 9] = [44u8, 34u8, 115u8, 99u8, 111u8, 114u8, 101u8, 34u8, 58u8];
    push_all(&mut v, &mid);
    push_decimal(&mut v, score);
    v.push(125u8);
    proof {
        assert(v@ =~= citizen_metadata(roles as nat, score as nat));
    }
    v
}

/// The tiki score of a list of roles: the sum of their bonuses.
pub open spec fn tikis_score(s: Seq<Tiki>) -> nat
    decreases s.len(),
{
    if s.len() == 0 {
        0
    } else {
        tikis_score(s.drop_last()) + tiki_bonus(s.last()) as nat
    }
}

/// A list of distinct roles has at most as many entries as there are roles.
pub proof fn lemma_distinct_roles_bounded(s: Seq<Tiki>)
    requires
        s.no_duplicates(),
    ensures
        s.len() <= TIKI_COUNT,
{
    let f = |t: Tiki| tiki_index(t) as int;
    assert(vstd::relations::injective(f)) by {
        assert forall|a: Tiki, b: Tiki| #[trigger] f(a) == #[trigger] f(b) implies a == b by {
            lemma_tiki_index_injective(a, b);
        }
    }
    s.lemma_no_duplicates_injective(f);
    let m = s.map_values(f);
    m.unique_seq_to_set();
    vstd::set_lib::lemma_int_range(0, TIKI_COUNT as int);
    assert forall|x: int| #[trigger] m.to_set().contains(x) implies vstd::set_lib::set_int_range(
        0,
        TIKI_COUNT as int,
    ).contains(x) by {
        let i = choose|i: int| 0 <= i < m.len() && m[i] == x;
        lemma_tiki_index_injective(s[i], s[i]);
    }
    vstd::set_lib::lemma_len_subset(m.to_set(), vstd::set_lib::set_int_range(0, TIKI_COUNT as int));
}

/// The score of a list is at most 250 points per role.
pub proof fn lemma_score_bounded(s: Seq<Tiki>)
    ensures
        tikis_score(s) <= 250 * s.len(),
    decreases s.len(),
{
    if s.len() > 0 {
        lemma_score_bounded(s.drop_last());
        lemma_bonus_bounded(s.last());
    }
}

/// Replacing one role of a list changes the score by the difference of the two bonuses.
pub proof fn lemma_score_update(s: Seq<Tiki>, p: int, x: Tiki)
    requires
        0 <= p < s.len(),
    ensures
        tikis_score(s.update(p, x)) + tiki_bonus(s[p]) == tikis_score(s) + tiki_bonus(x),
    decreases s.len(),
{
    let t = s.update(p, x);
    if p == s.len() - 1 {
        assert(t.drop_last() =~= s.drop_last());
    } else {
        assert(t.drop_last() =~= s.drop_last().update(p, x));
        lemma_score_update(s.drop_last(), p, x);
    }
}

/// Removing the role at `p` by moving the last role into its place (`swap_remove`) takes
/// exactly that role's bonus off the score.
pub proof fn lemma_score_swap_remove(s: Seq<Tiki>, p: int)
    requires
        0 <= p < s.len(),
    ensures
        tikis_score(s.update(p, s.last()).drop_last()) + tiki_bonus(s[p]) == tikis_score(s),
{
    let t = s.update(p, s.last());
    lemma_score_update(s, p, s.last());
    assert(t.last() == s.last());
}

/// Computes the score of a list of distinct roles.
fn score_of_list(v: &Vec<Tiki>) -> (r: u32)
    requires
        v@.no_duplicates(),
    ensures
        r == tikis_score(v@),
        r <= 250 * TIKI_COUNT,
{
    proof {
        lemma_distinct_roles_bounded(v@);
    }
    let mut sum: u32 = 0;
    let mut i: usize = 0;
    while i < v.len()
        invariant
            i <= v@.len(),
            v@.len() <= TIKI_COUNT,
            sum == tikis_score(v@.take(i as int)),
        decreases v@.len() - i,
    {
        proof {
            assert(v@.take(i + 1).drop_last() =~= v@.take(i as int));
            lemma_score_bounded(v@.take(i as int));
            lemma_bonus_bounded(v@[i as int]);
        }
        sum = sum + get_bonus_for_tiki(&v[i]);
        i += 1;
    }
    proof {
        assert(v@.take(i as int) =~= v@);
        lemma_score_bounded(v@);
    }
    sum
}

/// Whether `t` occurs in `v`.
fn list_contains(v: &Vec<Tiki>, t: Tiki) -> (r: Option<usize>)
    ensures
        match r {
            Some(p) => p < v@.len() && v@[p as int] == t,
            None => !v@.contains(t),
        },
{
    let mut i: usize = 0;
    while i < v.len()
        invariant
            i <= v@.len(),
            forall|j: int| 0 <= j < i ==> v@[j] != t,
        decreases v@.len() - i,
    {
        if v[i] == t {
            return Some(i);
        }
        i += 1;
    }
    None
}

/// The pallet's constants.
#[derive(Clone, Copy, Debug, PartialEq, Eq, Structural)]
pub struct TikiConfig {
    /// The NFT collection that holds the citizenship NFTs.
    pub collection_id: u32,
    /// Most roles that one account may hold.
    pub max_tikis_per_user: u32,
}

/// Events of the pallet.
#[derive(Clone, Copy, Debug, PartialEq, Eq, Structural)]
pub enum TikiEvent {
    CitizenNftMinted { who: AccountId, nft_id: u32 },
    TikiGranted { who: AccountId, tiki: Tiki },
    TikiRevoked { who: AccountId, tiki: Tiki },
}

/// Errors of the pallet.
#[derive(Clone, Copy, Debug, PartialEq, Eq, Structural)]
pub enum TikiError {
    /// The origin may not make this call.
    BadOrigin,
    RoleAlreadyTaken,
    NotTheHolder,
    RoleNotAssigned,
    ExceedsMaxRolesPerUser,
    KycNotCompleted,
    CitizenNftAlreadyExists,
    CitizenNftNotFound,
    UserAlreadyHasRole,
    InsufficientTrustScore,
    InvalidRoleAssignmentMethod,
    /// The NFT metadata would exceed the collection's string limit ("Metadata too long").
    MetadataTooLong,
    /// A transfer within the citizenship collection ("Citizen NFTs are non-transferable").
    NonTransferable,
    /// The NFT collection refused the call.
    Nft(NftError),
}

/// The roles that a new citizen starts with: citizenship, if one role is allowed at all.
pub open spec fn first_roles(max_tikis_per_user: u32) -> Seq<Tiki> {
    if max_tikis_per_user >= 1 {
        seq![Tiki::Hemwelati]
    } else {
        Seq::empty()
    }
}

/// The storage of the tiki pallet, together with the NFT collection it mints into.
pub struct TikiPallet {
    pub config: TikiConfig,
    /// `CitizenNft`: the citizenship NFT id of each citizen.
    pub citizen_ids: KeyMap<u32>,
    /// `UserTikis`: the roles of each account (absent means none).
    pub roles: KeyMap<Vec<Tiki>>,
    /// `TikiHolder`: the holder of each unique role, keyed by the role's encoding.
    pub holders: KeyMap<AccountId>,
    /// `NextItemId`: the id of the next NFT.
    pub next_id: u32,
    /// The NFT collection of the citizenship NFTs.
    pub nfts: NftCollection,
    /// Events deposited so far.
    pub events: Vec<TikiEvent>,
    /// The on-chain storage version.
    pub storage_version: u16,
}

impl TikiPallet {
    /// The citizenship NFT id of `who`, if it is a citizen.
    pub open spec fn citizen_of(&self, who: AccountId) -> Option<u32> {
        if self.citizen_ids@.contains_key(who) {
            Some(self.citizen_ids@[who])
        } else {
            None
        }
    }

    /// The roles of `who`.
    pub open spec fn tikis_of(&self, who: AccountId) -> Seq<Tiki> {
        if self.roles@.contains_key(who) {
            self.roles@[who]@
        } else {
            Seq::empty()
        }
    }

    /// The holder of the unique role `t`, if any.
    pub open spec fn holder_of(&self, t: Tiki) -> Option<AccountId> {
        if self.holders@.contains_key(tiki_index(t) as u64) {
            Some(self.holders@[tiki_index(t) as u64])
        } else {
            None
        }
    }

    /// The tiki score of `who`.
    pub open spec fn score_of(&self, who: AccountId) -> nat {
        tikis_score(self.tikis_of(who))
    }

    /// The NFT item with id `id`.
    pub open spec fn item(&self, id: u32) -> crate::nfts::NftItem {
        self.nfts.items@[id as u64]
    }

    /// The pallet's invariant:
    /// - only citizens hold roles, each role at most once and at most the configured number;
    /// - a unique role has a holder exactly when some account holds it, and that account is
    ///   the holder; other roles have no holder;
    /// - each citizen owns its citizenship NFT, which is locked and whose metadata states the
    ///   citizen's role count and score; distinct citizens have distinct NFTs;
    /// - every NFT id in use is below the next id.
    pub open spec fn wf(&self) -> bool {
        &&& self.nfts.collection_id == self.config.collection_id
        &&& forall|who: AccountId| #[trigger]
            self.roles@.contains_key(who) ==> self.citizen_ids@.contains_key(who)
        &&& forall|who: AccountId| #[trigger]
            self.tikis_of(who).len() <= self.config.max_tikis_per_user && self.tikis_of(
                who,
            ).no_duplicates()
        &&& forall|t: Tiki| !is_unique(t) ==> #[trigger] self.holder_of(t) is None
        &&& forall|t: Tiki, a: AccountId|
            #![trigger self.holder_of(t), self.tikis_of(a)]
            is_unique(t) ==> (self.holder_of(t) == Some(a) <==> self.tikis_of(a).contains(t))
        &&& forall|who: AccountId| #[trigger]
            self.citizen_ids@.contains_key(who) ==> {
                let id = self.citizen_ids@[who];
                &&& id < self.next_id
                &&& self.nfts.items@.contains_key(id as u64)
                &&& self.item(id).owner == who
                &&& self.item(id).locked
                &&& self.item(id).metadata@ == citizen_metadata(
                    self.tikis_of(who).len(),
                    self.score_of(who),
                )
            }
        &&& forall|a: AccountId, b: AccountId|
            #![trigger self.citizen_ids@[a], self.citizen_ids@[b]]
            self.citizen_ids@.contains_key(a) && self.citizen_ids@.contains_key(b) && a != b
                ==> self.citizen_ids@[a] != self.citizen_ids@[b]
        &&& forall|k: u64| #[trigger] self.nfts.items@.contains_key(k) ==> k < self.next_id
    }

    /// A pallet with empty storage and an empty citizenship collection whose metadata may be
    /// `string_limit` bytes long.
    pub fn new(config: TikiConfig, string_limit: u32) -> (s: Self)
        ensures
            s.wf(),
            s.config == config,
            s.nfts.string_limit == string_limit,
            s.next_id == 0,
            forall|who: AccountId| #[trigger] s.citizen_of(who) is None,
            forall|who: AccountId| #[trigger] s.tikis_of(who) == Seq::<Tiki>::empty(),
            forall|t: Tiki| #[trigger] s.holder_of(t) is None,
            s.nfts.items@ == Map::<u64, crate::nfts::NftItem>::empty(),
            s.events@ == Seq::<TikiEvent>::empty(),
            s.storage_version == 0,
    {
        TikiPallet {
            config,
            citizen_ids: KeyMap::new(),
            roles: KeyMap::new(),
            holders: KeyMap::new(),
            next_id: 0,
            nfts: NftCollection::new(config.collection_id, string_limit),
            events: Vec::new(),
            storage_version: 0,
        }
    }

    /// `citizen_nft`: the citizenship NFT id of `who`, if any.
    pub fn citizen_nft(&self, who: AccountId) -> (r: Option<u32>)
        ensures
            r == self.citizen_of(who),
    {
        match self.citizen_ids.get(who) {
            Some(id) => Some(*id),
            None => None,
        }
    }

    /// `user_tikis`: the roles of `who`, in the order in which they are stored.
    pub fn user_tikis(&self, who: AccountId) -> (r: Vec<Tiki>)
        ensures
            r@ == self.tikis_of(who),
    {
        let mut out: Vec<Tiki> = Vec::new();
        match self.roles.get(who) {
            Some(v) => {
                let mut i: usize = 0;
                while i < v.len()
                    invariant
                        i <= v@.len(),
                        out@ == v@.take(i as int),
                    decreases v@.len() - i,
                {
                    out.push(v[i]);
                    proof {
                        assert(v@.take(i + 1) =~= v@.take(i as int).push(v@[i as int]));
                    }
                    i += 1;
                }
                proof {
                    assert(v@.take(i as int) =~= v@);
                }
            },
            None => {},
        }
        out
    }

    /// `get_user_tikis`: the roles of `who`.
    pub fn get_user_tikis(&self, who: AccountId) -> (r: Vec<Tiki>)
        ensures
            r@ == self.tikis_of(who),
    {
        self.user_tikis(who)
    }

    /// `tiki_holder`: the holder of `tiki`, for a unique role that is held.
    pub fn tiki_holder(&self, tiki: &Tiki) -> (r: Option<AccountId>)
        ensures
            r == self.holder_of(*tiki),
    {
        let k = tiki.to_u32() as u64;
        match self.holders.get(k) {
            Some(a) => Some(*a),
            None => None,
        }
    }

    /// `next_item_id`: the id that the next citizenship NFT will get.
    pub fn next_item_id(&self) -> (r: u32)
        ensures
            r == self.next_id,
    {
        self.next_id
    }

    /// `has_tiki`: whether `who` holds `tiki`.
    pub fn has_tiki(&self, who: AccountId, tiki: &Tiki) -> (r: bool)
        ensures
            r == self.tikis_of(who).contains(*tiki),
    {
        match self.roles.get(who) {
            Some(v) => list_contains(v, *tiki).is_some(),
            None => false,
        }
    }

    /// `is_citizen`: whether `who` holds a citizenship NFT.
    pub fn is_citizen(&self, who: AccountId) -> (r: bool)
        ensures
            r == (self.citizen_of(who) is Some),
    {
        self.citizen_ids.contains_key(who)
    }

    /// `get_tiki_score`: the sum of the bonuses of the roles of `who`.
    pub fn get_tiki_score(&self, who: AccountId) -> (r: u32)
        requires
            self.wf(),
        ensures
            r == self.score_of(who),
    {
        proof {
            assert(self.tikis_of(who).no_duplicates());
        }
        match self.roles.get(who) {
            Some(v) => score_of_list(v),
            None => 0,
        }
    }
}

/// What minting a citizenship NFT for `user` answers: `CitizenNftAlreadyExists` for a
/// citizen, `MetadataTooLong` when the first metadata does not fit the collection.
pub open spec fn mint_outcome(s: TikiPallet, user: AccountId) -> Result<(), TikiError> {
    let first = first_roles(s.config.max_tikis_per_user);
    if s.citizen_of(user) is Some {
        Err(TikiError::CitizenNftAlreadyExists)
    } else if citizen_metadata(first.len(), tikis_score(first)).len() > s.nfts.string_limit {
        Err(TikiError::MetadataTooLong)
    } else {
        Ok(())
    }
}

/// The effect of a successful mint for `user`: it becomes a citizen with the next NFT id,
/// which is minted to it, locked and described; it starts with the first roles.
pub open spec fn minted(old: TikiPallet, new: TikiPallet, user: AccountId) -> bool {
    let id = old.next_id;
    let first = first_roles(old.config.max_tikis_per_user);
    &&& new.config == old.config
    &&& new.citizen_ids@ == old.citizen_ids@.insert(user, id)
    &&& new.next_id == id + 1
    &&& new.tikis_of(user) == first
    &&& forall|a: AccountId| a != user ==> #[trigger] new.tikis_of(a) == old.tikis_of(a)
    &&& new.holders@ == old.holders@
    &&& new.nfts.collection_id == old.nfts.collection_id
    &&& new.nfts.string_limit == old.nfts.string_limit
    &&& new.nfts.items@.dom() == old.nfts.items@.dom().insert(id as u64)
    &&& new.item(id).owner == user
    &&& new.item(id).locked
    &&& new.item(id).metadata@ == citizen_metadata(first.len(), tikis_score(first))
    &&& forall|k: u64| k != id as u64 ==> #[trigger] new.nfts.items@[k] == old.nfts.items@[k]
    &&& new.events@ == old.events@.push(TikiEvent::CitizenNftMinted { who: user, nft_id: id })
}

impl TikiPallet {
    /// `mint_citizen_nft_for_user`: mints the next NFT of the citizenship collection to
    /// `user`, locks it, records it as the citizenship NFT of `user`, gives `user` the
    /// citizenship role and writes the NFT's metadata.
    pub fn mint_citizen_nft_for_user(&mut self, user: AccountId) -> (r: Result<(), TikiError>)
        requires
            old(self).wf(),
            old(self).citizen_of(user) is None ==> old(self).next_id < u32::MAX,
        ensures
            final(self).wf(),
            r == mint_outcome(*old(self), user),
            r is Err ==> *final(self) == *old(self),
            r is Ok ==> minted(*old(self), *final(self), user),
    {
        if self.citizen_ids.contains_key(user) {
            return Err(TikiError::CitizenNftAlreadyExists);
        }
        let id = self.next_id;
        let with_role = self.config.max_tikis_per_user >= 1;
        let n_roles: u64 = if with_role { 1 } else { 0 };
        let score: u64 = if with_role { 10 } else { 0 };
        proof {
            let first = first_roles(self.config.max_tikis_per_user);
            if with_role {
                assert(first.drop_last() =~= Seq::<Tiki>::empty());
                assert(tikis_score(first.drop_last()) == 0);
            }
            assert(first.len() == n_roles && tikis_score(first) == score);
        }
        let metadata = citizen_metadata_bytes(n_roles, score);
        if metadata.len() > self.nfts.string_limit as usize {
            return Err(TikiError::MetadataTooLong);
        }
        proof {
            assert(!self.nfts.items@.contains_key(id as u64));
            assert(!self.roles@.contains_key(user));
        }
        let ghost old_self = *self;
        match self.nfts.mint(id, user) {
            Ok(()) => {},
            Err(e) => {
                return Err(TikiError::Nft(e));
            },
        }
        let _ = self.nfts.lock(id);
        self.citizen_ids.insert(user, id);
        self.next_id = id + 1;
        if with_role {
            self.roles.insert(user, vec![Tiki::Hemwelati]);
        }
        let _ = self.nfts.set_metadata(id, metadata);
        self.events.push(TikiEvent::CitizenNftMinted { who: user, nft_id: id });
        proof {
            let first = first_roles(self.config.max_tikis_per_user);
            assert(self.tikis_of(user) =~= first);
            assert forall|a: AccountId| a != user implies #[trigger] self.tikis_of(a)
                == old_self.tikis_of(a) by {}
            assert forall|t: Tiki| #[trigger] self.holder_of(t) == old_self.holder_of(t) by {}
            assert(self.nfts.items@.dom() =~= old_self.nfts.items@.dom().insert(id as u64));
            assert forall|who: AccountId| #[trigger] self.citizen_ids@.contains_key(who) implies {
                let cid = self.citizen_ids@[who];
                &&& cid < self.next_id
                &&& self.nfts.items@.contains_key(cid as u64)
                &&& self.item(cid).owner == who
                &&& self.item(cid).locked
                &&& self.item(cid).metadata@ == citizen_metadata(
                    self.tikis_of(who).len(),
                    self.score_of(who),
                )
            } by {
                if who != user {
                    assert(old_self.citizen_ids@.contains_key(who));
                    assert(self.citizen_ids@[who] == old_self.citizen_ids@[who]);
                    assert(self.item(self.citizen_ids@[who]) == old_self.item(
                        old_self.citizen_ids@[who],
                    ));
                }
            }
            assert forall|a: AccountId, b: AccountId|
                self.citizen_ids@.contains_key(a) && self.citizen_ids@.contains_key(b) && a != b
                    implies #[trigger] self.citizen_ids@[a] != #[trigger] self.citizen_ids@[b] by {
                if a != user && b != user {
                    assert(old_self.citizen_ids@[a] != old_self.citizen_ids@[b]);
                } else if a == user {
                    assert(old_self.citizen_ids@.contains_key(b));
                } else {
                    assert(old_self.citizen_ids@.contains_key(a));
                }
            }
            assert forall|t: Tiki, a: AccountId| is_unique(t) implies (#[trigger] self.holder_of(t)
                == Some(a) <==> #[trigger] self.tikis_of(a).contains(t)) by {
                if a == user {
                    assert(old_self.tikis_of(user) =~= Seq::<Tiki>::empty());
                    assert(old_self.holder_of(t) != Some(user));
                    if self.tikis_of(a).contains(t) {
                        assert(self.tikis_of(a)[0] == Tiki::Hemwelati);
                    }
                }
            }
        }
        Ok(())
    }
}

/// What granting `tiki` to `who` answers, in the order in which the conditions are checked.
pub open spec fn grant_outcome(s: TikiPallet, who: AccountId, tiki: Tiki) -> Result<(), TikiError> {
    let held = s.tikis_of(who);
    if s.citizen_of(who) is None {
        Err(TikiError::CitizenNftNotFound)
    } else if is_unique(tiki) && s.holder_of(tiki) is Some {
        Err(TikiError::RoleAlreadyTaken)
    } else if held.contains(tiki) {
        Err(TikiError::UserAlreadyHasRole)
    } else if held.len() >= s.config.max_tikis_per_user {
        Err(TikiError::ExceedsMaxRolesPerUser)
    } else if citizen_metadata(held.len() + 1, s.score_of(who) + tiki_bonus(tiki) as nat).len()
        > s.nfts.string_limit {
        Err(TikiError::MetadataTooLong)
    } else {
        Ok(())
    }
}

/// The position of role `t` in the list `s`.
pub open spec fn position_in(s: Seq<Tiki>, t: Tiki) -> int {
    choose|p: int| 0 <= p < s.len() && s[p] == t
}

/// The list `s` without role `t`, whose place takes the last role (`swap_remove`).
pub open spec fn without_role(s: Seq<Tiki>, t: Tiki) -> Seq<Tiki> {
    s.update(position_in(s, t), s.last()).drop_last()
}

/// What revoking `tiki` from `who` answers: `RoleNotAssigned` when `who` does not hold it
/// or it is citizenship, `MetadataTooLong` when the new metadata does not fit.
pub open spec fn revoke_outcome(s: TikiPallet, who: AccountId, tiki: Tiki) -> Result<(), TikiError> {
    let held = s.tikis_of(who);
    if !held.contains(tiki) {
        Err(TikiError::RoleNotAssigned)
    } else if tiki == Tiki::Hemwelati {
        Err(TikiError::RoleNotAssigned)
    } else if citizen_metadata(
        (held.len() - 1) as nat,
        (s.score_of(who) - tiki_bonus(tiki)) as nat,
    ).len() > s.nfts.string_limit {
        Err(TikiError::MetadataTooLong)
    } else {
        Ok(())
    }
}

/// The roles of `who` became `after`, and the metadata of its NFT was rewritten to match;
/// nothing else changed but the holder of `tiki` and the events.
pub open spec fn roles_changed(old: TikiPallet, new: TikiPallet, who: AccountId, after: Seq<Tiki>) -> bool {
    let id = old.citizen_ids@[who];
    &&& new.config == old.config
    &&& new.citizen_ids@ == old.citizen_ids@
    &&& new.next_id == old.next_id
    &&& new.tikis_of(who) == after
    &&& forall|a: AccountId| a != who ==> #[trigger] new.tikis_of(a) == old.tikis_of(a)
    &&& new.nfts.collection_id == old.nfts.collection_id
    &&& new.nfts.string_limit == old.nfts.string_limit
    &&& new.nfts.items@.dom() == old.nfts.items@.dom()
    &&& new.item(id).owner == old.item(id).owner
    &&& new.item(id).locked == old.item(id).locked
    &&& new.item(id).metadata@ == citizen_metadata(after.len(), tikis_score(after))
    &&& forall|k: u64| k != id as u64 ==> #[trigger] new.nfts.items@[k] == old.nfts.items@[k]
}

/// The effect of granting `tiki` to `who`: the role is appended to its roles, it becomes
/// the holder of a unique role, and its NFT's metadata is rewritten.
pub open spec fn granted(old: TikiPallet, new: TikiPallet, who: AccountId, tiki: Tiki) -> bool {
    &&& roles_changed(old, new, who, old.tikis_of(who).push(tiki))
    &&& new.holder_of(tiki) == (if is_unique(tiki) {
        Some(who)
    } else {
        None::<AccountId>
    })
    &&& forall|t: Tiki| t != tiki ==> #[trigger] new.holder_of(t) == old.holder_of(t)
    &&& new.events@ == old.events@.push(TikiEvent::TikiGranted { who, tiki })
}

/// The effect of revoking `tiki` from `who`: the role leaves its roles (the last role takes
/// its place), the role has no holder any more, and its NFT's metadata is rewritten.
pub open spec fn revoked(old: TikiPallet, new: TikiPallet, who: AccountId, tiki: Tiki) -> bool {
    &&& roles_changed(old, new, who, without_role(old.tikis_of(who), tiki))
    &&& new.holder_of(tiki) is None
    &&& forall|t: Tiki| t != tiki ==> #[trigger] new.holder_of(t) == old.holder_of(t)
    &&& new.events@ == old.events@.push(TikiEvent::TikiRevoked { who, tiki })
}

impl TikiPallet {
    proof fn lemma_holders_same_except(&self, other: &TikiPallet, tiki: Tiki)
        requires
            forall|k: u64| k != tiki_index(tiki) as u64 ==> (#[trigger] self.holders@.contains_key(k)
                == other.holders@.contains_key(k) && self.holders@[k] == other.holders@[k]),
        ensures
            forall|t: Tiki| t != tiki ==> #[trigger] self.holder_of(t) == other.holder_of(t),
    {
        assert forall|t: Tiki| t != tiki implies #[trigger] self.holder_of(t) == other.holder_of(t) by {
            lemma_tiki_index_injective(t, tiki);
        }
    }

    /// `internal_grant_role`: gives `tiki` to the citizen `dest_account`, records it as the
    /// holder of a unique role and rewrites the metadata of its NFT.
    pub fn internal_grant_role(&mut self, dest_account: AccountId, tiki: Tiki) -> (r: Result<(), TikiError>)
        requires
            old(self).wf(),
        ensures
            final(self).wf(),
            r == grant_outcome(*old(self), dest_account, tiki),
            r is Err ==> *final(self) == *old(self),
            r is Ok ==> granted(*old(self), *final(self), dest_account, tiki),
    {
        let who = dest_account;
        let id = match self.citizen_ids.get(who) {
            Some(i) => *i,
            None => return Err(TikiError::CitizenNftNotFound),
        };
        let unique = is_unique_role(&tiki);
        if unique && self.tiki_holder(&tiki).is_some() {
            return Err(TikiError::RoleAlreadyTaken);
        }
        proof {
            assert(self.tikis_of(who).no_duplicates());
            lemma_distinct_roles_bounded(self.tikis_of(who));
            lemma_score_bounded(self.tikis_of(who));
        }
        let (len, score, has) = match self.roles.get(who) {
            Some(v) => (v.len(), score_of_list(v), list_contains(v, tiki).is_some()),
            None => (0, 0, false),
        };
        if has {
            return Err(TikiError::UserAlreadyHasRole);
        }
        if len >= self.config.max_tikis_per_user as usize {
            return Err(TikiError::ExceedsMaxRolesPerUser);
        }
        proof {
            lemma_bonus_bounded(tiki);
        }
        let new_score = score + get_bonus_for_tiki(&tiki);
        let metadata = citizen_metadata_bytes((len + 1) as u64, new_score as u64);
        if metadata.len() > self.nfts.string_limit as usize {
            return Err(TikiError::MetadataTooLong);
        }
        let ghost old_self = *self;
        let ghost after = old_self.tikis_of(who).push(tiki);
        proof {
            assert(after.drop_last() =~= old_self.tikis_of(who));
            assert(tikis_score(after) == new_score);
        }
        let mut v = match self.roles.remove(who) {
            Some(v) => v,
            None => Vec::new(),
        };
        v.push(tiki);
        self.roles.insert(who, v);
        if unique {
            self.holders.insert(tiki.to_u32() as u64, who);
        }
        let _ = self.nfts.set_metadata(id, metadata);
        self.events.push(TikiEvent::TikiGranted { who, tiki });
        proof {
            assert(self.tikis_of(who) =~= after);
            assert forall|a: AccountId| a != who implies #[trigger] self.tikis_of(a)
                == old_self.tikis_of(a) by {}
            self.lemma_holders_same_except(&old_self, tiki);
            assert(after.no_duplicates()) by {
                assert forall|i: int, j: int| 0 <= i < j < after.len() implies after[i] != after[j] by {
                    if j == after.len() - 1 {
                        assert(old_self.tikis_of(who).contains(after[i]));
                    }
                }
            }
            assert forall|w: AccountId| #[trigger] self.citizen_ids@.contains_key(w) implies {
                let cid = self.citizen_ids@[w];
                &&& cid < self.next_id
                &&& self.nfts.items@.contains_key(cid as u64)
                &&& self.item(cid).owner == w
                &&& self.item(cid).locked
                &&& self.item(cid).metadata@ == citizen_metadata(
                    self.tikis_of(w).len(),
                    self.score_of(w),
                )
            } by {
                if w != who {
                    assert(old_self.citizen_ids@[w] != old_self.citizen_ids@[who]);
                }
            }
            assert forall|t: Tiki, a: AccountId| is_unique(t) implies (#[trigger] self.holder_of(t)
                == Some(a) <==> #[trigger] self.tikis_of(a).contains(t)) by {
                if t == tiki {
                    if a != who {
                        assert(!old_self.tikis_of(a).contains(t));
                    } else {
                        assert(self.tikis_of(a)[after.len() - 1] == tiki);
                    }
                } else if a == who {
                    if self.tikis_of(a).contains(t) {
                        let i = choose|i: int| 0 <= i < after.len() && after[i] == t;
                        assert(i < after.len() - 1);
                        assert(old_self.tikis_of(a)[i] == t);
                    }
                    if old_self.tikis_of(a).contains(t) {
                        let i = choose|i: int| 0 <= i < old_self.tikis_of(a).len() && old_self.tikis_of(a)[i] == t;
                        assert(after[i] == t);
                    }
                }
            }
        }
        Ok(())
    }
}

impl TikiPallet {
    /// `internal_revoke_role`: takes `tiki` from `target_account` (citizenship cannot be
    /// taken), clears the holder of a unique role and rewrites the metadata of its NFT.
    pub fn internal_revoke_role(&mut self, target_account: AccountId, tiki: Tiki) -> (r: Result<(), TikiError>)
        requires
            old(self).wf(),
        ensures
            final(self).wf(),
            r == revoke_outcome(*old(self), target_account, tiki),
            r is Err ==> *final(self) == *old(self),
            r is Ok ==> revoked(*old(self), *final(self), target_account, tiki),
    {
        let who = target_account;
        let ghost held = self.tikis_of(who);
        proof {
            assert(held.no_duplicates());
            lemma_distinct_roles_bounded(held);
            lemma_score_bounded(held);
        }
        let (pos, len, score) = match self.roles.get(who) {
            Some(v) => match list_contains(v, tiki) {
                Some(p) => (p, v.len(), score_of_list(v)),
                None => return Err(TikiError::RoleNotAssigned),
            },
            None => return Err(TikiError::RoleNotAssigned),
        };
        if tiki == Tiki::Hemwelati {
            return Err(TikiError::RoleNotAssigned);
        }
        proof {
            assert(held[pos as int] == tiki);
            assert(self.roles@.contains_key(who));
            assert(position_in(held, tiki) == pos) by {
                let q = position_in(held, tiki);
                assert(0 <= q < held.len() && held[q] == tiki);
            }
            lemma_score_swap_remove(held, pos as int);
        }
        let id = match self.citizen_ids.get(who) {
            Some(i) => *i,
            None => return Err(TikiError::CitizenNftNotFound),
        };
        let new_score = score - get_bonus_for_tiki(&tiki);
        let metadata = citizen_metadata_bytes((len - 1) as u64, new_score as u64);
        if metadata.len() > self.nfts.string_limit as usize {
            return Err(TikiError::MetadataTooLong);
        }
        let ghost old_self = *self;
        let ghost after = without_role(held, tiki);
        let mut v = match self.roles.remove(who) {
            Some(v) => v,
            None => Vec::new(),
        };
        let _ = v.swap_remove(pos);
        self.roles.insert(who, v);
        if is_unique_role(&tiki) {
            let _ = self.holders.remove(tiki.to_u32() as u64);
        }
        let _ = self.nfts.set_metadata(id, metadata);
        self.events.push(TikiEvent::TikiRevoked { who, tiki });
        proof {
            assert(self.tikis_of(who) =~= after);
            assert forall|a: AccountId| a != who implies #[trigger] self.tikis_of(a)
                == old_self.tikis_of(a) by {}
            self.lemma_holders_same_except(&old_self, tiki);
            // every role of `after` comes from `held`, at a position other than `pos`
            assert forall|i: int| 0 <= i < after.len() implies #[trigger] after[i] == (if i == pos {
                held.last()
            } else {
                held[i]
            }) by {}
            assert(after.no_duplicates()) by {
                assert forall|i: int, j: int| 0 <= i < j < after.len() implies after[i] != after[j] by {
                    assert(after[i] == (if i == pos { held.last() } else { held[i] }));
                    assert(after[j] == (if j == pos { held.last() } else { held[j] }));
                }
            }
            assert(!after.contains(tiki)) by {
                if after.contains(tiki) {
                    let i = choose|i: int| 0 <= i < after.len() && after[i] == tiki;
                    assert(after[i] == (if i == pos { held.last() } else { held[i] }));
                }
            }
            assert forall|w: AccountId| #[trigger] self.citizen_ids@.contains_key(w) implies {
                let cid = self.citizen_ids@[w];
                &&& cid < self.next_id
                &&& self.nfts.items@.contains_key(cid as u64)
                &&& self.item(cid).owner == w
                &&& self.item(cid).locked
                &&& self.item(cid).metadata@ == citizen_metadata(
                    self.tikis_of(w).len(),
                    self.score_of(w),
                )
            } by {
                if w != who {
                    assert(old_self.citizen_ids@[w] != old_self.citizen_ids@[who]);
                }
            }
            assert forall|t: Tiki, a: AccountId| is_unique(t) implies (#[trigger] self.holder_of(t)
                == Some(a) <==> #[trigger] self.tikis_of(a).contains(t)) by {
                if t != tiki && a == who {
                    if self.tikis_of(a).contains(t) {
                        let i = choose|i: int| 0 <= i < after.len() && after[i] == t;
                        assert(after[i] == (if i == pos { held.last() } else { held[i] }));
                        if i == pos {
                            assert(held[held.len() - 1] == t);
                        }
                    }
                    if held.contains(t) {
                        let i = choose|i: int| 0 <= i < held.len() && held[i] == t;
                        assert(i != pos);
                        if i == held.len() - 1 {
                            assert(after[pos as int] == t);
                        } else {
                            assert(after[i] == t);
                        }
                    }
                }
            }
        }
        Ok(())
    }
}

/// What an admin grant through the path for `kind` answers: `BadOrigin` unless root,
/// `InvalidRoleAssignmentMethod` unless `kind` is the role's assignment type, and then what
/// the grant answers.
pub open spec fn admin_grant_outcome(
    s: TikiPallet,
    origin: Origin,
    dest: AccountId,
    tiki: Tiki,
    kind: RoleAssignmentType,
) -> Result<(), TikiError> {
    if origin != Origin::Root {
        Err(TikiError::BadOrigin)
    } else if assignment_type_of(tiki) != kind {
        Err(TikiError::InvalidRoleAssignmentMethod)
    } else {
        grant_outcome(s, dest, tiki)
    }
}

/// Whether the metadata of a new citizen fits the collection.
pub open spec fn first_metadata_fits(s: TikiPallet) -> bool {
    let first = first_roles(s.config.max_tikis_per_user);
    citizen_metadata(first.len(), tikis_score(first)).len() <= s.nfts.string_limit
}

impl TikiPallet {
    fn admin_grant(&mut self, origin: Origin, dest: AccountId, tiki: Tiki, kind: RoleAssignmentType) -> (r: Result<(), TikiError>)
        requires
            old(self).wf(),
        ensures
            final(self).wf(),
            r == admin_grant_outcome(*old(self), origin, dest, tiki, kind),
            r is Err ==> *final(self) == *old(self),
            r is Ok ==> granted(*old(self), *final(self), dest, tiki),
    {
        if origin != Origin::Root {
            return Err(TikiError::BadOrigin);
        }
        if !can_grant_role_type(&tiki, &kind) {
            return Err(TikiError::InvalidRoleAssignmentMethod);
        }
        self.internal_grant_role(dest, tiki)
    }

    /// `grant_tiki`: the admin origin (root) appoints `dest` to an appointed role.
    pub fn grant_tiki(&mut self, origin: Origin, dest: AccountId, tiki: Tiki) -> (r: Result<(), TikiError>)
        requires
            old(self).wf(),
        ensures
            final(self).wf(),
            r == admin_grant_outcome(*old(self), origin, dest, tiki, RoleAssignmentType::Appointed),
            r is Err ==> *final(self) == *old(self),
            r is Ok ==> granted(*old(self), *final(self), dest, tiki),
    {
        self.admin_grant(origin, dest, tiki, RoleAssignmentType::Appointed)
    }

    /// `grant_elected_role`: the admin origin (root, on behalf of the election) gives `dest`
    /// an elected role.
    pub fn grant_elected_role(&mut self, origin: Origin, dest: AccountId, tiki: Tiki) -> (r: Result<(), TikiError>)
        requires
            old(self).wf(),
        ensures
            final(self).wf(),
            r == admin_grant_outcome(*old(self), origin, dest, tiki, RoleAssignmentType::Elected),
            r is Err ==> *final(self) == *old(self),
            r is Ok ==> granted(*old(self), *final(self), dest, tiki),
    {
        self.admin_grant(origin, dest, tiki, RoleAssignmentType::Elected)
    }

    /// `grant_earned_role`: the admin origin (root, on behalf of the exams) gives `dest` an
    /// earned role.
    pub fn grant_earned_role(&mut self, origin: Origin, dest: AccountId, tiki: Tiki) -> (r: Result<(), TikiError>)
        requires
            old(self).wf(),
        ensures
            final(self).wf(),
            r == admin_grant_outcome(*old(self), origin, dest, tiki, RoleAssignmentType::Earned),
            r is Err ==> *final(self) == *old(self),
            r is Ok ==> granted(*old(self), *final(self), dest, tiki),
    {
        self.admin_grant(origin, dest, tiki, RoleAssignmentType::Earned)
    }

    /// `revoke_tiki`: the admin origin (root) takes a role from `target`.
    pub fn revoke_tiki(&mut self, origin: Origin, target: AccountId, tiki: Tiki) -> (r: Result<(), TikiError>)
        requires
            old(self).wf(),
        ensures
            final(self).wf(),
            origin != Origin::Root ==> r == Err::<(), TikiError>(TikiError::BadOrigin),
            origin == Origin::Root ==> r == revoke_outcome(*old(self), target, tiki),
            r is Err ==> *final(self) == *old(self),
            r is Ok ==> revoked(*old(self), *final(self), target, tiki),
    {
        if origin != Origin::Root {
            return Err(TikiError::BadOrigin);
        }
        self.internal_revoke_role(target, tiki)
    }

    /// `force_mint_citizen_nft`: the admin origin (root) mints the citizenship NFT of `dest`.
    pub fn force_mint_citizen_nft(&mut self, origin: Origin, dest: AccountId) -> (r: Result<(), TikiError>)
        requires
            old(self).wf(),
            origin == Origin::Root && old(self).citizen_of(dest) is None ==> old(self).next_id < u32::MAX,
        ensures
            final(self).wf(),
            origin != Origin::Root ==> r == Err::<(), TikiError>(TikiError::BadOrigin),
            origin == Origin::Root ==> r == mint_outcome(*old(self), dest),
            r is Err ==> *final(self) == *old(self),
            r is Ok ==> minted(*old(self), *final(self), dest),
    {
        if origin != Origin::Root {
            return Err(TikiError::BadOrigin);
        }
        self.mint_citizen_nft_for_user(dest)
    }

    /// `apply_for_citizenship`: an account whose KYC is approved mints its citizenship NFT.
    pub fn apply_for_citizenship<K: KycStatus>(&mut self, kyc: &K, origin: Origin) -> (r: Result<(), TikiError>)
        requires
            old(self).wf(),
            signer_of(origin) matches Some(w) ==> (kyc.kyc_level_of(w) == KycLevel::Approved && old(self).citizen_of(w)
                is None ==> old(self).next_id < u32::MAX),
        ensures
            final(self).wf(),
            r is Err ==> *final(self) == *old(self),
            signer_of(origin) is None ==> r == Err::<(), TikiError>(TikiError::BadOrigin),
            signer_of(origin) matches Some(who) ==> {
                if kyc.kyc_level_of(who) != KycLevel::Approved {
                    r == Err::<(), TikiError>(TikiError::KycNotCompleted)
                } else {
                    &&& r == mint_outcome(*old(self), who)
                    &&& r is Ok ==> minted(*old(self), *final(self), who)
                }
            },
    {
        let who = match ensure_signed(origin) {
            Some(w) => w,
            None => return Err(TikiError::BadOrigin),
        };
        if kyc.get_kyc_status(who) != KycLevel::Approved {
            return Err(TikiError::KycNotCompleted);
        }
        self.mint_citizen_nft_for_user(who)
    }

    /// `auto_grant_citizenship`: mints the citizenship NFT of `account` if its KYC is
    /// approved and it has none; otherwise nothing happens.
    pub fn auto_grant_citizenship<K: KycStatus>(&mut self, kyc: &K, account: AccountId) -> (r: Result<(), TikiError>)
        requires
            old(self).wf(),
            kyc.kyc_level_of(account) == KycLevel::Approved && old(self).citizen_of(account) is None
                ==> old(self).next_id < u32::MAX,
        ensures
            final(self).wf(),
            r is Err ==> *final(self) == *old(self),
            kyc.kyc_level_of(account) == KycLevel::Approved && old(self).citizen_of(account) is None
                ==> r == mint_outcome(*old(self), account) && (r is Ok ==> minted(
                *old(self),
                *final(self),
                account,
            )),
            !(kyc.kyc_level_of(account) == KycLevel::Approved && old(self).citizen_of(account) is None)
                ==> r is Ok && *final(self) == *old(self),
    {
        if kyc.get_kyc_status(account) == KycLevel::Approved {
            if !self.is_citizen(account) {
                return self.mint_citizen_nft_for_user(account);
            }
        }
        Ok(())
    }

    /// `check_transfer_permission`: transfers within the citizenship collection are refused
    /// ("Citizen NFTs are non-transferable"); transfers in any other collection are allowed.
    pub fn check_transfer_permission(
        &self,
        origin: Origin,
        collection_id: u32,
        item_id: u32,
        from: AccountId,
        to: AccountId,
    ) -> (r: Result<(), TikiError>)
        ensures
            r == (if collection_id == self.config.collection_id {
                Err(TikiError::NonTransferable)
            } else {
                Ok(())
            }),
    {
        if collection_id == self.config.collection_id {
            return Err(TikiError::NonTransferable);
        }
        Ok(())
    }

    /// `check_and_mint_citizen_nfts`: mints a citizenship NFT for every account whose KYC is
    /// approved and that has none, in the order in which the KYC statuses were recorded.
    /// A failed mint is skipped; once the NFT ids are exhausted no more are minted.
    pub fn check_and_mint_citizen_nfts(&mut self, kyc: &IdentityKyc)
        requires
            old(self).wf(),
        ensures
            final(self).wf(),
            final(self).config == old(self).config,
            final(self).nfts.string_limit == old(self).nfts.string_limit,
            final(self).next_id >= old(self).next_id,
            forall|who: AccountId| #[trigger] old(self).citizen_of(who) is Some ==> final(self).citizen_of(who) == old(self).citizen_of(who) && final(self).tikis_of(who) == old(self).tikis_of(who),
            forall|who: AccountId| #[trigger] final(self).citizen_of(who) is Some ==> old(self).citizen_of(who) is Some || kyc.status_of(who) == KycLevel::Approved,
            forall|who: AccountId|
                #![trigger kyc.status_of(who)]
                kyc.status_of(who) == KycLevel::Approved && final(self).next_id < u32::MAX
                    && first_metadata_fits(*old(self)) ==> final(self).citizen_of(who) is Some,
    {
        let n = kyc.kyc_statuses.len();
        let mut i: usize = 0;
        while i < n
            invariant
                i <= n,
                n == kyc.kyc_statuses.key_seq().len(),
                forall|k: u64| #[trigger] kyc.kyc_statuses@.contains_key(k) <==> kyc.kyc_statuses.key_seq().contains(k),
                self.wf(),
                self.config == old(self).config,
                self.nfts.string_limit == old(self).nfts.string_limit,
                self.next_id >= old(self).next_id,
                forall|who: AccountId| #[trigger] old(self).citizen_of(who) is Some ==> self.citizen_of(who)
                    == old(self).citizen_of(who) && self.tikis_of(who) == old(self).tikis_of(who),
                forall|who: AccountId| #[trigger] self.citizen_of(who) is Some ==> old(self).citizen_of(who) is Some || kyc.status_of(who) == KycLevel::Approved,
                forall|j: int|
                    #![trigger kyc.kyc_statuses.key_seq()[j]]
                    0 <= j < i && kyc.status_of(kyc.kyc_statuses.key_seq()[j]) == KycLevel::Approved
                        && self.next_id < u32::MAX && first_metadata_fits(*old(self))
                        ==> self.citizen_of(kyc.kyc_statuses.key_seq()[j]) is Some,
            decreases n - i,
        {
            let who = kyc.kyc_statuses.key_at(i);
            let status = *kyc.kyc_statuses.value_at(i);
            let ghost before = *self;
            if status == KycLevel::Approved && !self.is_citizen(who) && self.next_id < u32::MAX {
                let _ = self.mint_citizen_nft_for_user(who);
            }
            proof {
                assert forall|w: AccountId| #[trigger] old(self).citizen_of(w) is Some implies self.citizen_of(w)
                    == old(self).citizen_of(w) && self.tikis_of(w) == old(self).tikis_of(w) by {
                    assert(before.citizen_of(w) is Some);
                    if w == who {
                        assert(before.citizen_of(who) is Some);
                    }
                }
                assert forall|w: AccountId| #[trigger] self.citizen_of(w) is Some implies old(self).citizen_of(w) is Some || kyc.status_of(w) == KycLevel::Approved by {
                    if w != who {
                        assert(before.citizen_of(w) is Some);
                    }
                }
            }
            i += 1;
        }
        proof {
            assert forall|who: AccountId|
                #![trigger kyc.status_of(who)]
                kyc.status_of(who) == KycLevel::Approved && self.next_id < u32::MAX
                    && first_metadata_fits(*old(self)) implies self.citizen_of(who) is Some by {
                assert(kyc.kyc_statuses@.contains_key(who));
                let j = choose|j: int| 0 <= j < n && kyc.kyc_statuses.key_seq()[j] == who;
            }
        }
    }

    /// `on_initialize`: the hook run at the start of every block; it mints the missing
    /// citizenship NFTs and answers the weight of ten reads and five writes.
    pub fn on_initialize(&mut self, kyc: &IdentityKyc, now: BlockNumber, db: RuntimeDbWeight) -> (w: Weight)
        requires
            old(self).wf(),
        ensures
            final(self).wf(),
            w == db.spec_reads_writes(10, 5),
            forall|who: AccountId|
                #![trigger kyc.status_of(who)]
                kyc.status_of(who) == KycLevel::Approved && final(self).next_id < u32::MAX
                    && first_metadata_fits(*old(self)) ==> final(self).citizen_of(who) is Some,
    {
        self.check_and_mint_citizen_nfts(kyc);
        db.reads_writes(10, 5)
    }
}

impl CitizenNftProvider for TikiPallet {
    open spec fn provider_wf(&self) -> bool {
        self.wf()
    }

    /// The NFT is minted as `mint_citizen_nft_for_user` does, or, when that is refused or
    /// the ids are exhausted, nothing changes.
    open spec fn mint_effect(&self, after: Self, who: AccountId) -> bool {
        if self.next_id < u32::MAX && mint_outcome(*self, who) is Ok {
            minted(*self, after, who)
        } else {
            after == *self
        }
    }

    /// Mints the citizenship NFT of `who`; refused once the NFT ids are exhausted.
    fn mint_citizen_nft(&mut self, who: AccountId, now: BlockNumber) -> (r: Result<(), ()>)
        ensures
            old(self).next_id == u32::MAX ==> r is Err,
            old(self).next_id < u32::MAX ==> (r is Ok <==> mint_outcome(*old(self), who) is Ok),
            r is Err ==> *final(self) == *old(self),
            r is Ok ==> minted(*old(self), *final(self), who),
    {
        if self.next_id == u32::MAX {
            return Err(());
        }
        match self.mint_citizen_nft_for_user(who) {
            Ok(()) => Ok(()),
            Err(_) => Err(()),
        }
    }
}

/// What other pallets read of the roles and of citizenship.
pub trait TikiProvider {
    /// The roles of `who`.
    spec fn roles_of(&self, who: AccountId) -> Seq<Tiki>;

    /// Whether `who` is a citizen.
    spec fn citizenship_of(&self, who: AccountId) -> bool;

    /// Whether `who` holds `tiki`.
    fn has_tiki(&self, who: AccountId, tiki: &Tiki) -> (r: bool)
        ensures
            r == self.roles_of(who).contains(*tiki),
    ;

    /// The roles of `who`.
    fn get_user_tikis(&self, who: AccountId) -> (r: Vec<Tiki>)
        ensures
            r@ == self.roles_of(who),
    ;

    /// Whether `who` is a citizen.
    fn is_citizen(&self, who: AccountId) -> (r: bool)
        ensures
            r == self.citizenship_of(who),
    ;
}

impl TikiProvider for TikiPallet {
    open spec fn roles_of(&self, who: AccountId) -> Seq<Tiki> {
        self.tikis_of(who)
    }

    open spec fn citizenship_of(&self, who: AccountId) -> bool {
        self.citizen_of(who) is Some
    }

    fn has_tiki(&self, who: AccountId, tiki: &Tiki) -> (r: bool) {
        TikiPallet::has_tiki(self, who, tiki)
    }

    fn get_user_tikis(&self, who: AccountId) -> (r: Vec<Tiki>) {
        self.user_tikis(who)
    }

    fn is_citizen(&self, who: AccountId) -> (r: bool) {
        TikiPallet::is_citizen(self, who)
    }
}

/// A role that a custom origin requires.
pub trait GetTiki {
    /// The required role.
    spec fn required_tiki() -> Tiki;

    /// The required role.
    fn tiki() -> (r: Tiki)
        ensures
            r == Self::required_tiki(),
    ;
}

/// Requires the role `Serok`.
pub struct SerokRole;

impl GetTiki for SerokRole {
    open spec fn required_tiki() -> Tiki {
        Tiki::Serok
    }

    fn tiki() -> (r: Tiki) {
        Tiki::Serok
    }
}

/// Requires the role `Wezir`.
pub struct WezirRole;

impl GetTiki for WezirRole {
    open spec fn required_tiki() -> Tiki {
        Tiki::Wezir
    }

    fn tiki() -> (r: Tiki) {
        Tiki::Wezir
    }
}

/// Requires the role `Parlementer`.
pub struct ParlementerRole;

impl GetTiki for ParlementerRole {
    open spec fn required_tiki() -> Tiki {
        Tiki::Parlementer
    }

    fn tiki() -> (r: Tiki) {
        Tiki::Parlementer
    }
}

/// The origin check that admits a signed call of an account that holds the role `I`.
pub struct EnsureTiki;

impl EnsureTiki {
    /// `try_origin`: the signer, if it holds the role `I`; otherwise the origin is handed
    /// back.
    pub fn try_origin<I: GetTiki>(tiki: &TikiPallet, o: Origin) -> (r: Result<AccountId, Origin>)
        ensures
            match signer_of(o) {
                Some(who) => if tiki.tikis_of(who).contains(I::required_tiki()) {
                    r == Ok::<AccountId, Origin>(who)
                } else {
                    r == Err::<AccountId, Origin>(o)
                },
                None => r == Err::<AccountId, Origin>(o),
            },
    {
        let who = match ensure_signed(o) {
            Some(w) => w,
            None => return Err(o),
        };
        let required = I::tiki();
        if tiki.has_tiki(who, &required) {
            Ok(who)
        } else {
            Err(o)
        }
    }
}

/// A unique role is held by at most one account.
pub proof fn lemma_unique_role_single_holder(s: TikiPallet, t: Tiki, a: AccountId, b: AccountId)
    requires
        s.wf(),
        is_unique(t),
        s.tikis_of(a).contains(t),
        s.tikis_of(b).contains(t),
    ensures
        a == b,
        s.holder_of(t) == Some(a),
{
    assert(s.holder_of(t) == Some(a) <==> s.tikis_of(a).contains(t));
    assert(s.holder_of(t) == Some(b) <==> s.tikis_of(b).contains(t));
}

/// Only citizens hold roles, and a citizen's NFT is locked, owned by it, and its metadata
/// states the citizen's role count and tiki score.
pub proof fn lemma_roles_need_citizenship(s: TikiPallet, who: AccountId)
    requires
        s.wf(),
    ensures
        s.tikis_of(who).len() > 0 ==> s.citizen_of(who) is Some,
        s.citizen_of(who) matches Some(id) ==> {
            &&& s.nfts.items@.contains_key(id as u64)
            &&& s.item(id).owner == who
            &&& s.item(id).locked
            &&& s.item(id).metadata@ == citizen_metadata(s.tikis_of(who).len(), s.score_of(who))
        },
{
    if s.tikis_of(who).len() > 0 {
        assert(s.roles@.contains_key(who));
    }
    if s.citizen_ids@.contains_key(who) {
    }
}

/// Distinct citizens hold distinct citizenship NFTs, all below the next id.
pub proof fn lemma_citizen_nfts_distinct(s: TikiPallet, a: AccountId, b: AccountId)
    requires
        s.wf(),
        s.citizen_of(a) is Some,
        s.citizen_of(b) is Some,
        a != b,
    ensures
        s.citizen_of(a) != s.citizen_of(b),
        s.citizen_of(a)->0 < s.next_id,
{
    assert(s.citizen_ids@[a] != s.citizen_ids@[b]);
}

/// A citizen's tiki score is at most 250 points for each of the 44 roles.
pub proof fn lemma_score_of_citizen_bounded(s: TikiPallet, who: AccountId)
    requires
        s.wf(),
    ensures
        s.tikis_of(who).len() <= TIKI_COUNT,
        s.score_of(who) <= 250 * TIKI_COUNT,
{
    assert(s.tikis_of(who).no_duplicates());
    lemma_distinct_roles_bounded(s.tikis_of(who));
    lemma_score_bounded(s.tikis_of(who));
}

/// Revoking a role right after granting it gives every account its roles back, every role
/// its holder, and every citizen its score.
pub proof fn lemma_revoke_undoes_grant(
    s0: TikiPallet,
    s1: TikiPallet,
    s2: TikiPallet,
    who: AccountId,
    tiki: Tiki,
)
    requires
        s0.wf(),
        grant_outcome(s0, who, tiki) is Ok,
        granted(s0, s1, who, tiki),
        revoked(s1, s2, who, tiki),
    ensures
        forall|a: AccountId| #[trigger] s2.tikis_of(a) == s0.tikis_of(a),
        forall|a: AccountId| #[trigger] s2.score_of(a) == s0.score_of(a),
        forall|t: Tiki| #[trigger] s2.holder_of(t) == s0.holder_of(t),
        s2.citizen_ids@ == s0.citizen_ids@,
        s2.next_id == s0.next_id,
{
    let held = s0.tikis_of(who);
    let after = held.push(tiki);
    assert(s1.tikis_of(who) == after);
    let p = position_in(after, tiki);
    assert(after[after.len() - 1] == tiki);
    assert(0 <= p < after.len() && after[p] == tiki);
    if p != after.len() - 1 {
        assert(held[p] == tiki);
        assert(held.contains(tiki));
    }
    assert(without_role(after, tiki) =~= held);
    assert forall|a: AccountId| #[trigger] s2.tikis_of(a) == s0.tikis_of(a) by {}
    assert forall|a: AccountId| #[trigger] s2.score_of(a) == s0.score_of(a) by {
        assert(s2.tikis_of(a) == s0.tikis_of(a));
    }
    assert forall|t: Tiki| #[trigger] s2.holder_of(t) == s0.holder_of(t) by {
        if t == tiki && is_unique(tiki) {
            assert(s0.holder_of(tiki) is None);
        }
        if t == tiki && !is_unique(tiki) {
            assert(s0.holder_of(tiki) is None);
        }
    }
}

} // verus!
