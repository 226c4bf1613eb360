//! The closed sets of transaction kinds and groups, their spellings and
//! their order.

use crate::sorting::int_order;
use crate::text::same_text;
use std::cmp::Ordering;
use vstd::prelude::*;
use vstd::std_specs::cmp::PartialOrdSpecImpl;

verus! {

/// The category of a transaction. The order of the variants is the order
/// in which kinds sort. `Unknown` marks a record that has not been filled
/// in: it is never read from a row, and it has no subject.
#[derive(Clone, Copy, Debug, PartialEq, Eq, Structural, Ord)]
pub enum TokenTaxRecType {
    Income,
    Deposit,
    Mining,
    Gift,
    Trade,
    Withdrawal,
    Spend,
    Lost,
    Stolen,
    Unknown,
}

/// An optional sub-classification of a transaction.
#[derive(Clone, Copy, Debug, PartialEq, Eq, Structural, Ord)]
pub enum GroupType {
    Margin,
}

impl TokenTaxRecType {
    /// The place of a kind in the declaration order, from 0.
    pub open spec fn ordinal(self) -> int {
        match self {
            TokenTaxRecType::Income => 0,
            TokenTaxRecType::Deposit => 1,
            TokenTaxRecType::Mining => 2,
            TokenTaxRecType::Gift => 3,
            TokenTaxRecType::Trade => 4,
            TokenTaxRecType::Withdrawal => 5,
            TokenTaxRecType::Spend => 6,
            TokenTaxRecType::Lost => 7,
            TokenTaxRecType::Stolen => 8,
            TokenTaxRecType::Unknown => 9,
        }
    }

    /// The order in which two kinds sort: that of their declaration.
    pub open spec fn order(self, other: TokenTaxRecType) -> Ordering {
        int_order(self.ordinal(), other.ordinal())
    }

    /// The kinds whose subject is what was received: the buy side.
    pub open spec fn acquires(self) -> bool {
        self is Trade || self is Deposit || self is Income || self is Mining
    }

    /// The kinds whose subject is what was given: the sell side.
    pub open spec fn disposes(self) -> bool {
        self is Withdrawal || self is Spend || self is Lost || self is Stolen || self is Gift
    }

    /// The spelling of a kind: its variant's name.
    pub open spec fn name_spec(self) -> Seq<char> {
        match self {
            TokenTaxRecType::Income => "Income"@,
            TokenTaxRecType::Deposit => "Deposit"@,
            TokenTaxRecType::Mining => "Mining"@,
            TokenTaxRecType::Gift => "Gift"@,
            TokenTaxRecType::Trade => "Trade"@,
            TokenTaxRecType::Withdrawal => "Withdrawal"@,
            TokenTaxRecType::Spend => "Spend"@,
            TokenTaxRecType::Lost => "Lost"@,
            TokenTaxRecType::Stolen => "Stolen"@,
            TokenTaxRecType::Unknown => "Unknown"@,
        }
    }

    /// The kind that a `Type` cell spells, if it spells one. The match is
    /// exact and case-sensitive, and `Unknown` is not among the answers.
    pub open spec fn from_name_spec(token: Seq<char>) -> Option<TokenTaxRecType> {
        if token == "Income"@ {
            Some(TokenTaxRecType::Income)
        } else if token == "Deposit"@ {
            Some(TokenTaxRecType::Deposit)
        } else if token == "Mining"@ {
            Some(TokenTaxRecType::Mining)
        } else if token == "Gift"@ {
            Some(TokenTaxRecType::Gift)
        } else if token == "Trade"@ {
            Some(TokenTaxRecType::Trade)
        } else if token == "Withdrawal"@ {
            Some(TokenTaxRecType::Withdrawal)
        } else if token == "Spend"@ {
            Some(TokenTaxRecType::Spend)
        } else if token == "Lost"@ {
            Some(TokenTaxRecType::Lost)
        } else if token == "Stolen"@ {
            Some(TokenTaxRecType::Stolen)
        } else {
            None
        }
    }

    /// The place of this kind in the declaration order.
    pub fn position(&self) -> (r: u8)
        ensures
            r == self.ordinal(),
    {
        match self {
            TokenTaxRecType::Income => 0,
            TokenTaxRecType::Deposit => 1,
            TokenTaxRecType::Mining => 2,
            TokenTaxRecType::Gift => 3,
            TokenTaxRecType::Trade => 4,
            TokenTaxRecType::Withdrawal => 5,
            TokenTaxRecType::Spend => 6,
            TokenTaxRecType::Lost => 7,
            TokenTaxRecType::Stolen => 8,
            TokenTaxRecType::Unknown => 9,
        }
    }

    /// The spelling of this kind.
    pub fn name(&self) -> (r: &'static str)
        ensures
            r@ == self.name_spec(),
    {
        match self {
            TokenTaxRecType::Income => "Income",
            TokenTaxRecType::Deposit => "Deposit",
            TokenTaxRecType::Mining => "Mining",
            TokenTaxRecType::Gift => "Gift",
            TokenTaxRecType::Trade => "Trade",
            TokenTaxRecType::Withdrawal => "Withdrawal",
            TokenTaxRecType::Spend => "Spend",
            TokenTaxRecType::Lost => "Lost",
            TokenTaxRecType::Stolen => "Stolen",
            TokenTaxRecType::Unknown => "Unknown",
        }
    }

    /// Reads a kind from the text of a `Type` cell.
    pub fn from_name(token: &str) -> (r: Option<TokenTaxRecType>)
        ensures
            r == TokenTaxRecType::from_name_spec(token@),
    {
        if same_text(token, "Income") {
            Some(TokenTaxRecType::Income)
        } else if same_text(token, "Deposit") {
            Some(TokenTaxRecType::Deposit)
        } else if same_text(token, "Mining") {
            Some(TokenTaxRecType::Mining)
        } else if same_text(token, "Gift") {
            Some(TokenTaxRecType::Gift)
        } else if same_text(token, "Trade") {
            Some(TokenTaxRecType::Trade)
        } else if same_text(token, "Withdrawal") {
            Some(TokenTaxRecType::Withdrawal)
        } else if same_text(token, "Spend") {
            Some(TokenTaxRecType::Spend)
        } else if same_text(token, "Lost") {
            Some(TokenTaxRecType::Lost)
        } else if same_text(token, "Stolen") {
            Some(TokenTaxRecType::Stolen)
        } else {
            None
        }
    }
}

/// Every kind but `Unknown` has its subject on exactly one side: it
/// acquires or it disposes, and never both. `Unknown` does neither.
pub proof fn lemma_kinds_take_one_side(kind: TokenTaxRecType)
    ensures
        kind is Unknown <==> !kind.acquires() && !kind.disposes(),
        !(kind.acquires() && kind.disposes()),
{
}

/// A kind other than `Unknown` is read back from its spelling.
pub proof fn lemma_name_is_read_back(kind: TokenTaxRecType)
    requires
        !(kind is Unknown),
    ensures
        TokenTaxRecType::from_name_spec(kind.name_spec()) == Some(kind),
{
    reveal_strlit("Income");
    reveal_strlit("Deposit");
    reveal_strlit("Mining");
    reveal_strlit("Gift");
    reveal_strlit("Trade");
    reveal_strlit("Withdrawal");
    reveal_strlit("Spend");
    reveal_strlit("Lost");
    reveal_strlit("Stolen");
    assert("Income"@.len() == 6 && "Mining"@.len() == 6 && "Stolen"@.len() == 6);
    assert("Gift"@.len() == 4 && "Lost"@.len() == 4);
    assert("Trade"@.len() == 5 && "Spend"@.len() == 5);
    assert("Deposit"@.len() == 7 && "Withdrawal"@.len() == 10);
    assert("Income"@[0] == 'I' && "Mining"@[0] == 'M' && "Stolen"@[0] == 'S');
    assert("Gift"@[0] == 'G' && "Lost"@[0] == 'L');
    assert("Trade"@[0] == 'T' && "Spend"@[0] == 'S');
}

/// A text that is read as a kind is the spelling of that kind, and the
/// kind is not `Unknown`.
pub proof fn lemma_read_name_is_spelled(token: Seq<char>)
    ensures
        TokenTaxRecType::from_name_spec(token) matches Some(kind) ==> (kind.name_spec() == token
            && !(kind is Unknown)),
{
}

/// The spelling `Unknown` is not read as a kind.
pub proof fn lemma_unknown_is_not_read()
    ensures
        TokenTaxRecType::from_name_spec(TokenTaxRecType::Unknown.name_spec()) is None,
{
    reveal_strlit("Unknown");
    reveal_strlit("Income");
    reveal_strlit("Deposit");
    reveal_strlit("Mining");
    reveal_strlit("Gift");
    reveal_strlit("Trade");
    reveal_strlit("Withdrawal");
    reveal_strlit("Spend");
    reveal_strlit("Lost");
    reveal_strlit("Stolen");
    assert("Unknown"@[0] == 'U' && "Deposit"@[0] == 'D');
}

/// A group is read back from its spelling, and a text that is read as a
/// group is the spelling of that group.
pub proof fn lemma_group_token_is_read_back(group: GroupType, token: Seq<char>)
    ensures
        GroupType::from_token_spec(group.token_spec()) == Some(group),
        GroupType::from_token_spec(token) matches Some(g) ==> g.token_spec() == token,
        group.token_spec().len() > 0,
{
    reveal_strlit("margin");
}

impl PartialOrdSpecImpl for TokenTaxRecType {
    open spec fn obeys_partial_cmp_spec() -> bool {
        true
    }

    open spec fn partial_cmp_spec(&self, other: &TokenTaxRecType) -> Option<Ordering> {
        Some(self.order(*other))
    }
}

impl PartialOrd for TokenTaxRecType {
    fn partial_cmp(&self, other: &TokenTaxRecType) -> (r: Option<Ordering>) {
        let a: u8 = self.position();
        let b: u8 = other.position();
        if a < b {
            Some(Ordering::Less)
        } else if a > b {
            Some(Ordering::Greater)
        } else {
            Some(Ordering::Equal)
        }
    }
}

impl GroupType {
    /// The place of a group in the declaration order, from 0.
    pub open spec fn ordinal(self) -> int {
        match self {
            GroupType::Margin => 0,
        }
    }

    /// The order in which two groups sort: that of their declaration.
    pub open spec fn order(self, other: GroupType) -> Ordering {
        int_order(self.ordinal(), other.ordinal())
    }

    /// The spelling of a group in a `Group` cell.
    pub open spec fn token_spec(self) -> Seq<char> {
        "margin"@
    }

    /// The spelling of a group when a record is displayed.
    pub open spec fn name_spec(self) -> Seq<char> {
        "Margin"@
    }

    /// The group that a non-empty `Group` cell spells, if it spells one.
    pub open spec fn from_token_spec(token: Seq<char>) -> Option<GroupType> {
        if token == "margin"@ {
            Some(GroupType::Margin)
        } else {
            None
        }
    }

    /// The spelling of this group in a `Group` cell.
    pub fn token(&self) -> (r: &'static str)
        ensures
            r@ == self.token_spec(),
    {
        "margin"
    }

    /// The spelling of this group when a record is displayed.
    pub fn name(&self) -> (r: &'static str)
        ensures
            r@ == self.name_spec(),
    {
        "Margin"
    }

    /// Reads a group from the text of a non-empty `Group` cell.
    pub fn from_token(token: &str) -> (r: Option<GroupType>)
        ensures
            r == GroupType::from_token_spec(token@),
    {
        if same_text(token, "margin") {
            Some(GroupType::Margin)
        } else {
            None
        }
    }
}

impl PartialOrdSpecImpl for GroupType {
    open spec fn obeys_partial_cmp_spec() -> bool {
        true
    }

    open spec fn partial_cmp_spec(&self, other: &GroupType) -> Option<Ordering> {
        Some(self.order(*other))
    }
}

impl PartialOrd for GroupType {
    fn partial_cmp(&self, other: &GroupType) -> (r: Option<Ordering>) {
        Some(Ordering::Equal)
    }
}

} // verus!
