//! A second card family on the same token model: hanafuda cards, one per
//! month and kind. Only the identity and its texture naming live here.

use vstd::prelude::*;
use vstd::string::StringExecFns;

verus! {

#[derive(Debug, Clone, Copy, PartialEq, Eq, Structural)]
pub enum HanafudaMonth {
    January,
    February,
    March,
    April,
    May,
    June,
    July,
    August,
    September,
    October,
    November,
    December,
}

#[derive(Debug, Clone, Copy, PartialEq, Eq, Structural)]
pub enum HanafudaCardType {
    Bright,
    Animal,
    Ribbon,
    Chaff,
}

#[derive(Debug, Clone, Copy, PartialEq, Eq, Structural)]
pub struct HanafudaCard {
    pub month: HanafudaMonth,
    pub card_type: HanafudaCardType,
}

pub open spec fn spec_month_str(m: HanafudaMonth) -> Seq<char> {
    match m {
        HanafudaMonth::January => "January"@,
        HanafudaMonth::February => "February"@,
        HanafudaMonth::March => "March"@,
        HanafudaMonth::April => "April"@,
        HanafudaMonth::May => "May"@,
        HanafudaMonth::June => "June"@,
        HanafudaMonth::July => "July"@,
        HanafudaMonth::August => "August"@,
        HanafudaMonth::September => "September"@,
        HanafudaMonth::October => "October"@,
        HanafudaMonth::November => "November"@,
        HanafudaMonth::December => "December"@,
    }
}

pub open spec fn spec_card_type_str(t: HanafudaCardType) -> Seq<char> {
    match t {
        HanafudaCardType::Bright => "Bright"@,
        HanafudaCardType::Animal => "Animal"@,
        HanafudaCardType::Ribbon => "Ribbon"@,
        HanafudaCardType::Chaff => "Chaff"@,
    }
}

fn month_str(m: HanafudaMonth) -> (r: &'static str)
    ensures
        r@ == spec_month_str(m),
{
    match m {
        HanafudaMonth::January => "January",
        HanafudaMonth::February => "February",
        HanafudaMonth::March => "March",
        HanafudaMonth::April => "April",
        HanafudaMonth::May => "May",
        HanafudaMonth::June => "June",
        HanafudaMonth::July => "July",
        HanafudaMonth::August => "August",
        HanafudaMonth::September => "September",
        HanafudaMonth::October => "October",
        HanafudaMonth::November => "November",
        HanafudaMonth::December => "December",
    }
}

fn card_type_str(t: HanafudaCardType) -> (r: &'static str)
    ensures
        r@ == spec_card_type_str(t),
{
    match t {
        HanafudaCardType::Bright => "Bright",
        HanafudaCardType::Animal => "Animal",
        HanafudaCardType::Ribbon => "Ribbon",
        HanafudaCardType::Chaff => "Chaff",
    }
}

impl HanafudaCard {
    /// A short human-readable name: month, then kind.
    pub fn display(&self) -> (r: String)
        ensures
            r@ == spec_month_str(self.month) + " - "@ + spec_card_type_str(self.card_type),
    {
        let mut out = String::from_str(month_str(self.month));
        out.append(" - ");
        out.append(card_type_str(self.card_type));
        out
    }

    /// Path of the texture showing this card's face.
    pub fn front_texture_path(&self) -> (r: String)
        ensures
            r@ == "textures/hanafuda/"@ + spec_month_str(self.month) + "_"@ + spec_card_type_str(
                self.card_type,
            ) + "_front.png"@,
    {
        let mut out = String::from_str("textures/hanafuda/");
        out.append(month_str(self.month));
        out.append("_");
        out.append(card_type_str(self.card_type));
        out.append("_front.png");
        out
    }

    /// Path of the shared back texture of the family.
    pub fn back_texture_path(&self) -> (r: String)
        ensures
            r@ == "textures/hanafuda/card_back.png"@,
    {
        String::from_str("textures/hanafuda/card_back.png")
    }
}

} // verus!
