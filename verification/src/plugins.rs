//! The two command sets served over the compiled schema: card lookup and
//! note storage.  Each declares its schema — the command variants with
//! their role-tagged fields — and converts a parsed call into its typed
//! command value.

use vstd::prelude::*;
use crate::call::BoundModel;
use crate::call::BoundValue;
use crate::call::ParsedCall;
use crate::call::ParsedModel;
use crate::schema::DeclaredType;
use crate::schema::FieldModel;
use crate::schema::FieldSpec;
use crate::schema::TypeModel;
use crate::schema::VariantSpec;
use crate::schema::clone_opt_string;
use crate::schema::opt_string_view;

verus! {

/// A field's model: the common parts spelled out once.
pub open spec fn field_model(
    name: Seq<char>,
    optional: bool,
    leaf: Seq<char>,
    tag_required: bool,
    tag_optional: bool,
    tag_flag: bool,
    usage: Option<Seq<char>>,
) -> FieldModel {
    FieldModel {
        name: name,
        ty: TypeModel { optional: optional, leaf: leaf },
        tag_required: tag_required,
        tag_optional: tag_optional,
        tag_flag: tag_flag,
        usage: usage,
    }
}

/// The card-lookup commands: fetch one card by name, or search for cards
/// matching a query.
pub enum MtgPlugin {
    Tutor { card_name: String, fuzzy: bool },
    Search { name: String, set: Option<String> },
}

/// The card-lookup schema: the `mtg tutor` and `mtg search` variants.
pub fn mtg_schema() -> (r: Vec<VariantSpec>)
    ensures
        r@.len() == 2,
        r@[0]@.name == Option::Some("mtg tutor"@),
        r@[0]@.usage == Option::Some("Searches Scryfall for a single card and returns it."@),
        r@[0]@.fields =~= seq![
            field_model("card_name"@, false, "String"@, true, false, false, Option::None),
            field_model(
                "fuzzy"@,
                false,
                "bool"@,
                false,
                false,
                true,
                Option::Some(
                    "If set, will search for cards using a fuzzy match on the card name."@,
                ),
            ),
        ],
        r@[1]@.name == Option::Some("mtg search"@),
        r@[1]@.usage == Option::Some(
            "Searches Scryfall for cards matching a query and returns them."@,
        ),
        r@[1]@.fields =~= seq![
            field_model(
                "name"@,
                false,
                "String"@,
                true,
                false,
                false,
                Option::Some("Name of the card to search for."@),
            ),
            field_model(
                "set"@,
                true,
                "String"@,
                false,
                false,
                true,
                Option::Some("Only search this set or edition for cards."@),
            ),
        ],
{
    let mut tutor_fields: Vec<FieldSpec> = Vec::new();
    tutor_fields.push(
        FieldSpec {
            name: "card_name".to_owned(),
            ty: DeclaredType { optional: false, leaf: "String".to_owned() },
            tag_required: true,
            tag_optional: false,
            tag_flag: false,
            usage: Option::None,
        },
    );
    tutor_fields.push(
        FieldSpec {
            name: "fuzzy".to_owned(),
            ty: DeclaredType { optional: false, leaf: "bool".to_owned() },
            tag_required: false,
            tag_optional: false,
            tag_flag: true,
            usage: Option::Some(
                "If set, will search for cards using a fuzzy match on the card name.".to_owned(),
            ),
        },
    );
    let mut search_fields: Vec<FieldSpec> = Vec::new();
    search_fields.push(
        FieldSpec {
            name: "name".to_owned(),
            ty: DeclaredType { optional: false, leaf: "String".to_owned() },
            tag_required: true,
            tag_optional: false,
            tag_flag: false,
            usage: Option::Some("Name of the card to search for.".to_owned()),
        },
    );
    search_fields.push(
        FieldSpec {
            name: "set".to_owned(),
            ty: DeclaredType { optional: true, leaf: "String".to_owned() },
            tag_required: false,
            tag_optional: false,
            tag_flag: true,
            usage: Option::Some("Only search this set or edition for cards.".to_owned()),
        },
    );
    let mut r: Vec<VariantSpec> = Vec::new();
    r.push(
        VariantSpec {
            name: Option::Some("mtg tutor".to_owned()),
            usage: Option::Some("Searches Scryfall for a single card and returns it.".to_owned()),
            fields: tutor_fields,
        },
    );
    r.push(
        VariantSpec {
            name: Option::Some("mtg search".to_owned()),
            usage: Option::Some(
                "Searches Scryfall for cards matching a query and returns them.".to_owned(),
            ),
            fields: search_fields,
        },
    );
    r
}

/// Whether a parsed call has the shape of one of the card-lookup
/// commands.
pub open spec fn mtg_call_shape(p: ParsedModel) -> bool {
    ||| (p.name == "mtg tutor"@ && p.args.len() == 2 && p.args[0].value is Str
        && p.args[1].value is Bool)
    ||| (p.name == "mtg search"@ && p.args.len() == 2 && p.args[0].value is Str
        && p.args[1].value is MaybeStr)
}

impl MtgPlugin {
    /// The typed card-lookup command a parsed call carries, when it has
    /// the shape the card-lookup schema produces.
    pub fn from_call(p: &ParsedCall) -> (r: Option<MtgPlugin>)
        ensures
            match r {
                Option::Some(m) => match m {
                    MtgPlugin::Tutor { card_name, fuzzy } => p@.name == "mtg tutor"@
                        && p@.args.len() == 2 && p@.args[0].value == BoundModel::Str(card_name@)
                        && p@.args[1].value == BoundModel::Bool(fuzzy),
                    MtgPlugin::Search { name, set } => p@.name == "mtg search"@ && p@.args.len()
                        == 2 && p@.args[0].value == BoundModel::Str(name@) && p@.args[1].value
                        == BoundModel::MaybeStr(opt_string_view(set)),
                },
                Option::None => !mtg_call_shape(p@),
            },
    {
        proof {
            reveal_strlit("mtg tutor");
            reveal_strlit("mtg search");
            assert("mtg tutor"@.len() == 9);
            assert("mtg search"@.len() == 10);
        }
        if p.name == "mtg tutor".to_owned() {
            if p.args.len() == 2 {
                match (&p.args[0].value, &p.args[1].value) {
                    (BoundValue::Str(s), BoundValue::Bool(b)) => {
                        return Option::Some(MtgPlugin::Tutor { card_name: s.clone(), fuzzy: *b });
                    },
                    _ => {
                        return Option::None;
                    },
                }
            }
            return Option::None;
        }
        if p.name == "mtg search".to_owned() {
            if p.args.len() == 2 {
                match (&p.args[0].value, &p.args[1].value) {
                    (BoundValue::Str(s), BoundValue::MaybeStr(o)) => {
                        return Option::Some(
                            MtgPlugin::Search { name: s.clone(), set: clone_opt_string(o) },
                        );
                    },
                    _ => {
                        return Option::None;
                    },
                }
            }
            return Option::None;
        }
        Option::None
    }
}

/// The note-storage commands: log in to a server, show the service's
/// information, list the notes, or fetch notes by identifier.
pub enum SynPlugin {
    Login { name: String },
    Info {},
    NoteList {},
    NoteGet { id: Option<String> },
}

/// The note-storage schema: the `syn login`, `syn note info`,
/// `syn note list` and `syn note get` variants.
pub fn syn_schema() -> (r: Vec<VariantSpec>)
    ensures
        r@.len() == 4,
        r@[0]@.name == Option::Some("syn login"@),
        r@[0]@.usage == Option::Some("Logs in to a given Synology NAS."@),
        r@[0]@.fields =~= seq![
            field_model(
                "name"@,
                false,
                "String"@,
                true,
                false,
                false,
                Option::Some("The domain name of the Synology NAS to log in to."@),
            ),
        ],
        r@[1]@.name == Option::Some("syn note info"@),
        r@[1]@.usage is None,
        r@[1]@.fields =~= Seq::<FieldModel>::empty(),
        r@[2]@.name == Option::Some("syn note list"@),
        r@[2]@.usage is None,
        r@[2]@.fields =~= Seq::<FieldModel>::empty(),
        r@[3]@.name == Option::Some("syn note get"@),
        r@[3]@.usage is None,
        r@[3]@.fields =~= seq![
            field_model("id"@, true, "String"@, false, true, false, Option::None),
        ],
{
    let mut login_fields: Vec<FieldSpec> = Vec::new();
    login_fields.push(
        FieldSpec {
            name: "name".to_owned(),
            ty: DeclaredType { optional: false, leaf: "String".to_owned() },
            tag_required: true,
            tag_optional: false,
            tag_flag: false,
            usage: Option::Some("The domain name of the Synology NAS to log in to.".to_owned()),
        },
    );
    let mut get_fields: Vec<FieldSpec> = Vec::new();
    get_fields.push(
        FieldSpec {
            name: "id".to_owned(),
            ty: DeclaredType { optional: true, leaf: "String".to_owned() },
            tag_required: false,
            tag_optional: true,
            tag_flag: false,
            usage: Option::None,
        },
    );
    let mut r: Vec<VariantSpec> = Vec::new();
    r.push(
        VariantSpec {
            name: Option::Some("syn login".to_owned()),
            usage: Option::Some("Logs in to a given Synology NAS.".to_owned()),
            fields: login_fields,
        },
    );
    r.push(
        VariantSpec {
            name: Option::Some("syn note info".to_owned()),
            usage: Option::None,
            fields: Vec::new(),
        },
    );
    r.push(
        VariantSpec {
            name: Option::Some("syn note list".to_owned()),
            usage: Option::None,
            fields: Vec::new(),
        },
    );
    r.push(
        VariantSpec {
            name: Option::Some("syn note get".to_owned()),
            usage: Option::None,
            fields: get_fields,
        },
    );
    r
}

/// Whether a parsed call has the shape of one of the note-storage
/// commands.
pub open spec fn syn_call_shape(p: ParsedModel) -> bool {
    ||| (p.name == "syn login"@ && p.args.len() == 1 && p.args[0].value is Str)
    ||| (p.name == "syn note info"@ && p.args.len() == 0)
    ||| (p.name == "syn note list"@ && p.args.len() == 0)
    ||| (p.name == "syn note get"@ && p.args.len() == 1 && p.args[0].value is MaybeStr)
}

impl SynPlugin {
    /// The typed note-storage command a parsed call carries, when it has
    /// the shape the note-storage schema produces.
    pub fn from_call(p: &ParsedCall) -> (r: Option<SynPlugin>)
        ensures
            match r {
                Option::Some(m) => match m {
                    SynPlugin::Login { name } => p@.name == "syn login"@ && p@.args.len() == 1
                        && p@.args[0].value == BoundModel::Str(name@),
                    SynPlugin::Info {} => p@.name == "syn note info"@ && p@.args.len() == 0,
                    SynPlugin::NoteList {} => p@.name == "syn note list"@ && p@.args.len() == 0,
                    SynPlugin::NoteGet { id } => p@.name == "syn note get"@ && p@.args.len() == 1
                        && p@.args[0].value == BoundModel::MaybeStr(opt_string_view(id)),
                },
                Option::None => !syn_call_shape(p@),
            },
    {
        proof {
            reveal_strlit("syn login");
            reveal_strlit("syn note info");
            reveal_strlit("syn note list");
            reveal_strlit("syn note get");
            assert("syn login"@.len() == 9);
            assert("syn note info"@.len() == 13);
            assert("syn note list"@.len() == 13);
            assert("syn note get"@.len() == 12);
            assert("syn note info"@[9] == 'i');
            assert("syn note list"@[9] == 'l');
        }
        if p.name == "syn login".to_owned() {
            if p.args.len() == 1 {
                match &p.args[0].value {
                    BoundValue::Str(s) => {
                        return Option::Some(SynPlugin::Login { name: s.clone() });
                    },
                    _ => {
                        return Option::None;
                    },
                }
            }
            return Option::None;
        }
        if p.name == "syn note info".to_owned() {
            if p.args.len() == 0 {
                return Option::Some(SynPlugin::Info {  });
            }
            return Option::None;
        }
        if p.name == "syn note list".to_owned() {
            if p.args.len() == 0 {
                return Option::Some(SynPlugin::NoteList {  });
            }
            return Option::None;
        }
        if p.name == "syn note get".to_owned() {
            if p.args.len() == 1 {
                match &p.args[0].value {
                    BoundValue::MaybeStr(o) => {
                        return Option::Some(SynPlugin::NoteGet { id: clone_opt_string(o) });
                    },
                    _ => {
                        return Option::None;
                    },
                }
            }
            return Option::None;
        }
        Option::None
    }
}

/// A command set a dispatcher can serve: its declarative schema, and the
/// conversion from a parsed call to its typed command value.
pub trait PluginSignatures: Sized {
    fn schema() -> Vec<VariantSpec>;

    fn from_parsed(p: &ParsedCall) -> Option<Self>;
}

impl PluginSignatures for MtgPlugin {
    fn schema() -> Vec<VariantSpec> {
        mtg_schema()
    }

    fn from_parsed(p: &ParsedCall) -> Option<MtgPlugin> {
        MtgPlugin::from_call(p)
    }
}

impl PluginSignatures for SynPlugin {
    fn schema() -> Vec<VariantSpec> {
        syn_schema()
    }

    fn from_parsed(p: &ParsedCall) -> Option<SynPlugin> {
        SynPlugin::from_call(p)
    }
}

} // verus!
