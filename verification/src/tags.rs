//! The closed enumerations of the data model and their spellings on the
//! wire.

use crate::text::same_text;
use vstd::prelude::*;

verus! {

/// Where care was given.
#[derive(Clone, Copy, Debug, PartialEq, Eq, Structural)]
pub enum Location {
    Unknown,
    Inpatient,
    Outpatient,
}

impl Location {
    /// The spelling on the wire.
    pub open spec fn tag_text(self) -> Seq<char> {
        match self {
            Location::Unknown => "Unknown"@,
            Location::Inpatient => "Inpatient"@,
            Location::Outpatient => "Outpatient"@,
        }
    }

    /// The location spelled `tag`, if there is one.
    pub open spec fn of_text(tag: Seq<char>) -> Option<Location> {
        if tag == "Unknown"@ {
            Some(Location::Unknown)
        } else if tag == "Inpatient"@ {
            Some(Location::Inpatient)
        } else if tag == "Outpatient"@ {
            Some(Location::Outpatient)
        } else {
            None
        }
    }

    /// The spelling on the wire.
    pub fn tag(self) -> (s: &'static str)
        ensures
            s@ == self.tag_text(),
    {
        match self {
            Location::Unknown => "Unknown",
            Location::Inpatient => "Inpatient",
            Location::Outpatient => "Outpatient",
        }
    }

    /// The location spelled `tag`, if there is one.
    pub fn from_tag(tag: &str) -> (r: Option<Location>)
        ensures
            r == Location::of_text(tag@),
    {
        if same_text(tag, "Unknown") {
            Some(Location::Unknown)
        } else if same_text(tag, "Inpatient") {
            Some(Location::Inpatient)
        } else if same_text(tag, "Outpatient") {
            Some(Location::Outpatient)
        } else {
            None
        }
    }

    /// Each member is the one that its own spelling names, and a spelling
    /// that names a member is that member's spelling.
    pub proof fn lemma_tag_round_trip(self, tag: Seq<char>)
        ensures
            Location::of_text(self.tag_text()) == Some(self),
            Location::of_text(tag) == Some(self) ==> tag == self.tag_text(),
    {
        reveal_strlit("Unknown");
        reveal_strlit("Inpatient");
        reveal_strlit("Outpatient");
        assert("Unknown"@.len() == 7);
        assert("Inpatient"@.len() == 9);
        assert("Outpatient"@.len() == 10);
    }
}

/// The code systems that a code may be drawn from.
#[derive(Clone, Copy, Debug, PartialEq, Eq, Structural)]
pub enum Codebook {
    CDT,
    CPT,
    HCPCS,
    ICD9,
    ICD9PC,
    ICD10,
    ICD10PC,
    LOINC,
    MedicaidCat,
    NABSP,
    NDC,
    NDC9,
    UB92,
    USSTATE,
}

impl Codebook {
    /// The spelling on the wire. Two members are not spelled as they are
    /// named: `medicaid_cat` and `US_STATE`.
    pub open spec fn tag_text(self) -> Seq<char> {
        match self {
            Codebook::CDT => "CDT"@,
            Codebook::CPT => "CPT"@,
            Codebook::HCPCS => "HCPCS"@,
            Codebook::ICD9 => "ICD9"@,
            Codebook::ICD9PC => "ICD9PC"@,
            Codebook::ICD10 => "ICD10"@,
            Codebook::ICD10PC => "ICD10PC"@,
            Codebook::LOINC => "LOINC"@,
            Codebook::MedicaidCat => "medicaid_cat"@,
            Codebook::NABSP => "NABSP"@,
            Codebook::NDC => "NDC"@,
            Codebook::NDC9 => "NDC9"@,
            Codebook::UB92 => "UB92"@,
            Codebook::USSTATE => "US_STATE"@,
        }
    }

    /// The codebook spelled `tag`, if there is one.
    pub open spec fn of_text(tag: Seq<char>) -> Option<Codebook> {
        if tag == "CDT"@ {
            Some(Codebook::CDT)
        } else if tag == "CPT"@ {
            Some(Codebook::CPT)
        } else if tag == "HCPCS"@ {
            Some(Codebook::HCPCS)
        } else if tag == "ICD9"@ {
            Some(Codebook::ICD9)
        } else if tag == "ICD9PC"@ {
            Some(Codebook::ICD9PC)
        } else if tag == "ICD10"@ {
            Some(Codebook::ICD10)
        } else if tag == "ICD10PC"@ {
            Some(Codebook::ICD10PC)
        } else if tag == "LOINC"@ {
            Some(Codebook::LOINC)
        } else if tag == "medicaid_cat"@ {
            Some(Codebook::MedicaidCat)
        } else if tag == "NABSP"@ {
            Some(Codebook::NABSP)
        } else if tag == "NDC"@ {
            Some(Codebook::NDC)
        } else if tag == "NDC9"@ {
            Some(Codebook::NDC9)
        } else if tag == "UB92"@ {
            Some(Codebook::UB92)
        } else if tag == "US_STATE"@ {
            Some(Codebook::USSTATE)
        } else {
            None
        }
    }

    /// The spelling on the wire.
    pub fn tag(self) -> (s: &'static str)
        ensures
            s@ == self.tag_text(),
    {
        match self {
            Codebook::CDT => "CDT",
            Codebook::CPT => "CPT",
            Codebook::HCPCS => "HCPCS",
            Codebook::ICD9 => "ICD9",
            Codebook::ICD9PC => "ICD9PC",
            Codebook::ICD10 => "ICD10",
            Codebook::ICD10PC => "ICD10PC",
            Codebook::LOINC => "LOINC",
            Codebook::MedicaidCat => "medicaid_cat",
            Codebook::NABSP => "NABSP",
            Codebook::NDC => "NDC",
            Codebook::NDC9 => "NDC9",
            Codebook::UB92 => "UB92",
            Codebook::USSTATE => "US_STATE",
        }
    }

    /// The codebook spelled `tag`, if there is one.
    pub fn from_tag(tag: &str) -> (r: Option<Codebook>)
        ensures
            r == Codebook::of_text(tag@),
    {
        if same_text(tag, "CDT") {
            Some(Codebook::CDT)
        } else if same_text(tag, "CPT") {
            Some(Codebook::CPT)
        } else if same_text(tag, "HCPCS") {
            Some(Codebook::HCPCS)
        } else if same_text(tag, "ICD9") {
            Some(Codebook::ICD9)
        } else if same_text(tag, "ICD9PC") {
            Some(Codebook::ICD9PC)
        } else if same_text(tag, "ICD10") {
            Some(Codebook::ICD10)
        } else if same_text(tag, "ICD10PC") {
            Some(Codebook::ICD10PC)
        } else if same_text(tag, "LOINC") {
            Some(Codebook::LOINC)
        } else if same_text(tag, "medicaid_cat") {
            Some(Codebook::MedicaidCat)
        } else if same_text(tag, "NABSP") {
            Some(Codebook::NABSP)
        } else if same_text(tag, "NDC") {
            Some(Codebook::NDC)
        } else if same_text(tag, "NDC9") {
            Some(Codebook::NDC9)
        } else if same_text(tag, "UB92") {
            Some(Codebook::UB92)
        } else if same_text(tag, "US_STATE") {
            Some(Codebook::USSTATE)
        } else {
            None
        }
    }

    /// Each member is the one that its own spelling names, and a spelling
    /// that names a member is that member's spelling.
    pub proof fn lemma_tag_round_trip(self, tag: Seq<char>)
        ensures
            Codebook::of_text(self.tag_text()) == Some(self),
            Codebook::of_text(tag) == Some(self) ==> tag == self.tag_text(),
    {
        reveal_strlit("CDT");
        reveal_strlit("CPT");
        reveal_strlit("HCPCS");
        reveal_strlit("ICD9");
        reveal_strlit("ICD9PC");
        reveal_strlit("ICD10");
        reveal_strlit("ICD10PC");
        reveal_strlit("LOINC");
        reveal_strlit("medicaid_cat");
        reveal_strlit("NABSP");
        reveal_strlit("NDC");
        reveal_strlit("NDC9");
        reveal_strlit("UB92");
        reveal_strlit("US_STATE");
        assert("CDT"@.len() == 3 && "CDT"@[0] == 'C' && "CDT"@[1] == 'D');
        assert("CPT"@.len() == 3 && "CPT"@[0] == 'C' && "CPT"@[1] == 'P');
        assert("HCPCS"@.len() == 5 && "HCPCS"@[0] == 'H');
        assert("ICD9"@.len() == 4 && "ICD9"@[0] == 'I');
        assert("ICD9PC"@.len() == 6);
        assert("ICD10"@.len() == 5 && "ICD10"@[0] == 'I');
        assert("ICD10PC"@.len() == 7);
        assert("LOINC"@.len() == 5 && "LOINC"@[0] == 'L');
        assert("medicaid_cat"@.len() == 12);
        assert("NABSP"@.len() == 5 && "NABSP"@[0] == 'N');
        assert("NDC"@.len() == 3 && "NDC"@[0] == 'N' && "NDC"@[1] == 'D');
        assert("NDC9"@.len() == 4 && "NDC9"@[0] == 'N');
        assert("UB92"@.len() == 4 && "UB92"@[0] == 'U');
        assert("US_STATE"@.len() == 8);
    }
}

/// What a demographic fact is about.
#[derive(Clone, Copy, Debug, PartialEq, Eq, Structural)]
pub enum DemographicField {
    BirthYear,
    BirthDate,
    Race,
    RaceCodes,
    Gender,
    Zipcode,
    County,
    CountyFIPS,
    State,
    Ethnicity,
    Region,
    UrbanRural,
}

impl DemographicField {
    /// The spelling on the wire.
    pub open spec fn tag_text(self) -> Seq<char> {
        match self {
            DemographicField::BirthYear => "BirthYear"@,
            DemographicField::BirthDate => "BirthDate"@,
            DemographicField::Race => "Race"@,
            DemographicField::RaceCodes => "RaceCodes"@,
            DemographicField::Gender => "Gender"@,
            DemographicField::Zipcode => "Zipcode"@,
            DemographicField::County => "County"@,
            DemographicField::CountyFIPS => "CountyFIPS"@,
            DemographicField::State => "State"@,
            DemographicField::Ethnicity => "Ethnicity"@,
            DemographicField::Region => "Region"@,
            DemographicField::UrbanRural => "UrbanRural"@,
        }
    }

    /// The field spelled `tag`, if there is one.
    pub open spec fn of_text(tag: Seq<char>) -> Option<DemographicField> {
        if tag == "BirthYear"@ {
            Some(DemographicField::BirthYear)
        } else if tag == "BirthDate"@ {
            Some(DemographicField::BirthDate)
        } else if tag == "Race"@ {
            Some(DemographicField::Race)
        } else if tag == "RaceCodes"@ {
            Some(DemographicField::RaceCodes)
        } else if tag == "Gender"@ {
            Some(DemographicField::Gender)
        } else if tag == "Zipcode"@ {
            Some(DemographicField::Zipcode)
        } else if tag == "County"@ {
            Some(DemographicField::County)
        } else if tag == "CountyFIPS"@ {
            Some(DemographicField::CountyFIPS)
        } else if tag == "State"@ {
            Some(DemographicField::State)
        } else if tag == "Ethnicity"@ {
            Some(DemographicField::Ethnicity)
        } else if tag == "Region"@ {
            Some(DemographicField::Region)
        } else if tag == "UrbanRural"@ {
            Some(DemographicField::UrbanRural)
        } else {
            None
        }
    }

    /// The spelling on the wire.
    pub fn tag(self) -> (s: &'static str)
        ensures
            s@ == self.tag_text(),
    {
        match self {
            DemographicField::BirthYear => "BirthYear",
            DemographicField::BirthDate => "BirthDate",
            DemographicField::Race => "Race",
            DemographicField::RaceCodes => "RaceCodes",
            DemographicField::Gender => "Gender",
            DemographicField::Zipcode => "Zipcode",
            DemographicField::County => "County",
            DemographicField::CountyFIPS => "CountyFIPS",
            DemographicField::State => "State",
            DemographicField::Ethnicity => "Ethnicity",
            DemographicField::Region => "Region",
            DemographicField::UrbanRural => "UrbanRural",
        }
    }

    /// The field spelled `tag`, if there is one.
    pub fn from_tag(tag: &str) -> (r: Option<DemographicField>)
        ensures
            r == DemographicField::of_text(tag@),
    {
        if same_text(tag, "BirthYear") {
            Some(DemographicField::BirthYear)
        } else if same_text(tag, "BirthDate") {
            Some(DemographicField::BirthDate)
        } else if same_text(tag, "Race") {
            Some(DemographicField::Race)
        } else if same_text(tag, "RaceCodes") {
            Some(DemographicField::RaceCodes)
        } else if same_text(tag, "Gender") {
            Some(DemographicField::Gender)
        } else if same_text(tag, "Zipcode") {
            Some(DemographicField::Zipcode)
        } else if same_text(tag, "County") {
            Some(DemographicField::County)
        } else if same_text(tag, "CountyFIPS") {
            Some(DemographicField::CountyFIPS)
        } else if same_text(tag, "State") {
            Some(DemographicField::State)
        } else if same_text(tag, "Ethnicity") {
            Some(DemographicField::Ethnicity)
        } else if same_text(tag, "Region") {
            Some(DemographicField::Region)
        } else if same_text(tag, "UrbanRural") {
            Some(DemographicField::UrbanRural)
        } else {
            None
        }
    }

    /// Each member is the one that its own spelling names, and a spelling
    /// that names a member is that member's spelling.
    pub proof fn lemma_tag_round_trip(self, tag: Seq<char>)
        ensures
            DemographicField::of_text(self.tag_text()) == Some(self),
            DemographicField::of_text(tag) == Some(self) ==> tag == self.tag_text(),
    {
        reveal_strlit("BirthYear");
        reveal_strlit("BirthDate");
        reveal_strlit("Race");
        reveal_strlit("RaceCodes");
        reveal_strlit("Gender");
        reveal_strlit("Zipcode");
        reveal_strlit("County");
        reveal_strlit("CountyFIPS");
        reveal_strlit("State");
        reveal_strlit("Ethnicity");
        reveal_strlit("Region");
        reveal_strlit("UrbanRural");
        assert("BirthYear"@.len() == 9 && "BirthYear"@[5] == 'Y');
        assert("BirthDate"@.len() == 9 && "BirthDate"@[5] == 'D');
        assert("Race"@.len() == 4);
        assert("RaceCodes"@.len() == 9 && "RaceCodes"@[5] == 'o');
        assert("Gender"@.len() == 6 && "Gender"@[0] == 'G');
        assert("Zipcode"@.len() == 7);
        assert("County"@.len() == 6 && "County"@[0] == 'C');
        assert("CountyFIPS"@.len() == 10 && "CountyFIPS"@[0] == 'C');
        assert("State"@.len() == 5);
        assert("Ethnicity"@.len() == 9 && "Ethnicity"@[5] == 'c');
        assert("Region"@.len() == 6 && "Region"@[0] == 'R');
        assert("UrbanRural"@.len() == 10 && "UrbanRural"@[0] == 'U');
    }
}

/// The domains of facts: the closed set of tags by which a context announces
/// the shape of its payload.
#[derive(Clone, Copy, Debug, PartialEq, Eq, Structural)]
pub enum Domain {
    Claim,
    Death,
    Demographics,
    Diagnosis,
    Eligibility,
    Enrollment,
    Labs,
    Medication,
    Procedure,
}

impl Domain {
    /// The spelling on the wire.
    pub open spec fn tag_text(self) -> Seq<char> {
        match self {
            Domain::Claim => "Claim"@,
            Domain::Death => "Death"@,
            Domain::Demographics => "Demographics"@,
            Domain::Diagnosis => "Diagnosis"@,
            Domain::Eligibility => "Eligibility"@,
            Domain::Enrollment => "Enrollment"@,
            Domain::Labs => "Labs"@,
            Domain::Medication => "Medication"@,
            Domain::Procedure => "Procedure"@,
        }
    }

    /// The domain spelled `tag`, if there is one.
    pub open spec fn of_text(tag: Seq<char>) -> Option<Domain> {
        if tag == "Claim"@ {
            Some(Domain::Claim)
        } else if tag == "Death"@ {
            Some(Domain::Death)
        } else if tag == "Demographics"@ {
            Some(Domain::Demographics)
        } else if tag == "Diagnosis"@ {
            Some(Domain::Diagnosis)
        } else if tag == "Eligibility"@ {
            Some(Domain::Eligibility)
        } else if tag == "Enrollment"@ {
            Some(Domain::Enrollment)
        } else if tag == "Labs"@ {
            Some(Domain::Labs)
        } else if tag == "Medication"@ {
            Some(Domain::Medication)
        } else if tag == "Procedure"@ {
            Some(Domain::Procedure)
        } else {
            None
        }
    }

    /// The spelling on the wire.
    pub fn tag(self) -> (s: &'static str)
        ensures
            s@ == self.tag_text(),
    {
        match self {
            Domain::Claim => "Claim",
            Domain::Death => "Death",
            Domain::Demographics => "Demographics",
            Domain::Diagnosis => "Diagnosis",
            Domain::Eligibility => "Eligibility",
            Domain::Enrollment => "Enrollment",
            Domain::Labs => "Labs",
            Domain::Medication => "Medication",
            Domain::Procedure => "Procedure",
        }
    }

    /// The domain spelled `tag`, if there is one.
    pub fn from_tag(tag: &str) -> (r: Option<Domain>)
        ensures
            r == Domain::of_text(tag@),
    {
        if same_text(tag, "Claim") {
            Some(Domain::Claim)
        } else if same_text(tag, "Death") {
            Some(Domain::Death)
        } else if same_text(tag, "Demographics") {
            Some(Domain::Demographics)
        } else if same_text(tag, "Diagnosis") {
            Some(Domain::Diagnosis)
        } else if same_text(tag, "Eligibility") {
            Some(Domain::Eligibility)
        } else if same_text(tag, "Enrollment") {
            Some(Domain::Enrollment)
        } else if same_text(tag, "Labs") {
            Some(Domain::Labs)
        } else if same_text(tag, "Medication") {
            Some(Domain::Medication)
        } else if same_text(tag, "Procedure") {
            Some(Domain::Procedure)
        } else {
            None
        }
    }

    /// Each member is the one that its own spelling names, and a spelling
    /// that names a member is that member's spelling.
    pub proof fn lemma_tag_round_trip(self, tag: Seq<char>)
        ensures
            Domain::of_text(self.tag_text()) == Some(self),
            Domain::of_text(tag) == Some(self) ==> tag == self.tag_text(),
    {
        reveal_strlit("Claim");
        reveal_strlit("Death");
        reveal_strlit("Demographics");
        reveal_strlit("Diagnosis");
        reveal_strlit("Eligibility");
        reveal_strlit("Enrollment");
        reveal_strlit("Labs");
        reveal_strlit("Medication");
        reveal_strlit("Procedure");
        assert("Claim"@.len() == 5 && "Claim"@[0] == 'C');
        assert("Death"@.len() == 5 && "Death"@[0] == 'D');
        assert("Demographics"@.len() == 12);
        assert("Diagnosis"@.len() == 9 && "Diagnosis"@[0] == 'D');
        assert("Eligibility"@.len() == 11);
        assert("Enrollment"@.len() == 10 && "Enrollment"@[0] == 'E');
        assert("Labs"@.len() == 4);
        assert("Medication"@.len() == 10 && "Medication"@[0] == 'M');
        assert("Procedure"@.len() == 9 && "Procedure"@[0] == 'P');
    }
}
} // verus!
