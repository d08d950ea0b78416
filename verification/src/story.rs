//! Story files for UI components: the schema of a component is turned into
//! the text of a story file that documents its arguments.

use convert_case::{Case, Casing};
use vstd::prelude::*;
use vstd::string::*;

verus! {

/// One choice of an argument of kind `enum`.
#[derive(Debug, PartialEq, Eq)]
pub struct EnumValue {
    pub value: String,
    pub name: String,
}

/// The mathematical value of an [`EnumValue`].
pub struct EnumValueModel {
    pub value: Seq<char>,
    pub name: Seq<char>,
}

impl View for EnumValue {
    type V = EnumValueModel;

    open spec fn view(&self) -> EnumValueModel {
        EnumValueModel { value: self.value@, name: self.name@ }
    }
}

impl DeepView for EnumValue {
    type V = EnumValueModel;

    open spec fn deep_view(&self) -> EnumValueModel {
        self@
    }
}

/// The default of an argument, as far as a story shows it.
#[derive(Debug, PartialEq, Eq)]
pub enum DefaultValue {
    Text(String),
    Flag(bool),
    /// A number, as it is written.
    Number(String),
    /// Any other value; a story shows none.
    Other,
}

/// The mathematical value of a [`DefaultValue`].
pub enum DefaultModel {
    Text(Seq<char>),
    Flag(bool),
    Number(Seq<char>),
    Other,
}

impl View for DefaultValue {
    type V = DefaultModel;

    open spec fn view(&self) -> DefaultModel {
        match self {
            DefaultValue::Text(text) => DefaultModel::Text(text@),
            DefaultValue::Flag(flag) => DefaultModel::Flag(*flag),
            DefaultValue::Number(number) => DefaultModel::Number(number@),
            DefaultValue::Other => DefaultModel::Other,
        }
    }
}

/// One entry of a schema group: either a description, which holds a `text`
/// and belongs to the argument that follows, or an argument, named by
/// `field`.
#[derive(Debug, PartialEq, Eq)]
pub struct SchemaItem {
    pub type_: String,
    pub field: Option<String>,
    pub default: Option<DefaultValue>,
    pub text: Option<String>,
    pub values: Option<Vec<EnumValue>>,
}

/// The mathematical value of a [`SchemaItem`].
pub struct ItemModel {
    pub type_: Seq<char>,
    pub field: Option<Seq<char>>,
    pub default: Option<DefaultModel>,
    pub text: Option<Seq<char>>,
    pub values: Option<Seq<EnumValueModel>>,
}

impl View for SchemaItem {
    type V = ItemModel;

    open spec fn view(&self) -> ItemModel {
        ItemModel {
            type_: self.type_@,
            field: match self.field {
                Some(field) => Some(field@),
                None => None,
            },
            default: match self.default {
                Some(default) => Some(default@),
                None => None,
            },
            text: match self.text {
                Some(text) => Some(text@),
                None => None,
            },
            values: match self.values {
                Some(values) => Some(values.deep_view()),
                None => None,
            },
        }
    }
}

impl DeepView for SchemaItem {
    type V = ItemModel;

    open spec fn deep_view(&self) -> ItemModel {
        self@
    }
}

/// A named group of schema entries.
#[derive(Debug, PartialEq, Eq)]
pub struct SchemaGroup {
    pub name: String,
    pub fields: Vec<SchemaItem>,
}

/// The mathematical value of a [`SchemaGroup`].
pub struct GroupModel {
    pub name: Seq<char>,
    pub fields: Seq<ItemModel>,
}

impl View for SchemaGroup {
    type V = GroupModel;

    open spec fn view(&self) -> GroupModel {
        GroupModel { name: self.name@, fields: self.fields.deep_view() }
    }
}

impl DeepView for SchemaGroup {
    type V = GroupModel;

    open spec fn deep_view(&self) -> GroupModel {
        self@
    }
}

/// The schema of a component.
#[derive(Debug, PartialEq, Eq)]
pub struct Schema {
    pub name: String,
    pub schema: Vec<SchemaGroup>,
}

/// The mathematical value of a [`Schema`].
pub struct SchemaModel {
    pub name: Seq<char>,
    pub schema: Seq<GroupModel>,
}

impl View for Schema {
    type V = SchemaModel;

    open spec fn view(&self) -> SchemaModel {
        SchemaModel { name: self.name@, schema: self.schema.deep_view() }
    }
}

/// A story file: its name and its text.
#[derive(Debug, PartialEq, Eq)]
pub struct Story {
    pub file_name: String,
    pub contents: String,
}

/// `text` with every slash replaced by a space.
pub open spec fn slashes_to_spaces(text: Seq<char>) -> Seq<char> {
    text.map_values(
        |c: char|
            if c == '/' {
                ' '
            } else {
                c
            },
    )
}

/// `text` in Pascal case, as the `convert_case` crate writes it.
pub uninterp spec fn pascal_case(text: Seq<char>) -> Seq<char>;

/// Replaces every slash of `text` by a space, with `str::replace`.
///
/// Trusted: `replace` puts the replacement in the place of every match of
/// the pattern and keeps the rest.
#[verifier::external_body]
fn replace_slashes(text: &str) -> (replaced: String)
    ensures
        replaced@ == slashes_to_spaces(text@),
{
    text.replace('/', " ")
}

/// Converts `text` to Pascal case, with `Casing::to_case` and `Case::Pascal`.
///
/// Trusted: the result is a function of the text alone, named
/// [`pascal_case`].
#[verifier::external_body]
fn to_pascal_case(text: &str) -> (converted: String)
    ensures
        converted@ == pascal_case(text@),
{
    text.to_case(Case::Pascal)
}

/// The name of the component of a schema named `schema_name`.
pub open spec fn component_name_text(schema_name: Seq<char>) -> Seq<char> {
    pascal_case(slashes_to_spaces(schema_name))
}

/// The name of the component of a schema: the schema's name in Pascal case,
/// its slashes taken as spaces.
pub fn component_name(schema_name: &str) -> (name: String)
    ensures
        name@ == component_name_text(schema_name@),
{
    let spaced = replace_slashes(schema_name);
    to_pascal_case(spaced.as_str())
}

/// The name of the story file of a component.
pub open spec fn story_file_name_text(component: Seq<char>) -> Seq<char> {
    component + ".stories.tsx"@
}

/// The name of the story file of a component.
pub fn story_file_name(component: &str) -> (name: String)
    ensures
        name@ == story_file_name_text(component@),
{
    let mut name = String::from_str(component);
    name.append(".stories.tsx");
    name
}

/// The control of an argument of a known kind, filed under `category`.
pub open spec fn categorized_control(control: Seq<char>, category: Seq<char>) -> Seq<char> {
    "control: \""@ + control + "\", table: { category: \""@ + category + "\" }, "@
}

/// What a story says of the kind of an argument. An argument of a kind that
/// has no control is left out of the table.
pub open spec fn control_text(type_: Seq<char>, category: Seq<char>) -> Seq<char> {
    if type_ == "string"@ || type_ == "markdown"@ {
        categorized_control("text"@, category)
    } else if type_ == "boolean"@ {
        categorized_control("boolean"@, category)
    } else if type_ == "number"@ {
        categorized_control("number"@, category)
    } else if type_ == "enum"@ {
        categorized_control("radio"@, category)
    } else {
        "table: { disable: true }, "@
    }
}

/// One choice as text: its name, and its value in quotes.
pub open spec fn option_text(choice: EnumValueModel) -> Seq<char> {
    choice.name + ": \""@ + choice.value + "\", "@
}

/// The choices as text, one behind the other.
pub open spec fn option_entries(choices: Seq<EnumValueModel>) -> Seq<char>
    decreases choices.len(),
{
    if choices.len() == 0 {
        Seq::empty()
    } else {
        option_entries(choices.drop_last()) + option_text(choices.last())
    }
}

/// What a story says of the choices of an argument.
pub open spec fn options_text(values: Option<Seq<EnumValueModel>>) -> Seq<char> {
    match values {
        Some(choices) => "options: {"@ + option_entries(choices) + "}, "@,
        None => Seq::empty(),
    }
}

/// A truth value as text.
pub open spec fn flag_text(flag: bool) -> Seq<char> {
    if flag {
        "true"@
    } else {
        "false"@
    }
}

/// What a story says of the default of an argument.
pub open spec fn default_text(default: Option<DefaultModel>) -> Seq<char> {
    match default {
        Some(DefaultModel::Text(text)) => "defaultValue: \""@ + text + "\", "@,
        Some(DefaultModel::Flag(flag)) => "defaultValue: "@ + flag_text(flag) + ", "@,
        Some(DefaultModel::Number(number)) => "defaultValue: "@ + number + ", "@,
        _ => Seq::empty(),
    }
}

/// A description as a story states it.
pub open spec fn description_text(description: Seq<char>) -> Seq<char> {
    "description: \""@ + description + "\", "@
}

/// The description that waits for the next argument, or nothing.
pub open spec fn pending_text(pending: Option<Seq<char>>) -> Seq<char> {
    match pending {
        Some(text) => text,
        None => Seq::empty(),
    }
}

/// The line of a story that documents the argument `item` of the group
/// `category`, with the description that waits for it.
pub open spec fn arg_type_text(
    category: Seq<char>,
    item: ItemModel,
    pending: Option<Seq<char>>,
) -> Seq<char> {
    "        "@ + item.field->0 + ": { "@ + control_text(item.type_, category) + options_text(
        item.values,
    ) + default_text(item.default) + pending_text(pending) + "},\n"@
}

/// The documented arguments as far as they are written, and the description
/// that waits for the next argument.
#[verifier::ext_equal]
pub struct ArgTypesModel {
    pub text: Seq<char>,
    pub pending: Option<Seq<char>>,
}

impl ArgTypesModel {
    /// The start of the documented arguments.
    pub open spec fn start() -> ArgTypesModel {
        ArgTypesModel { text: "argTypes: {\n"@, pending: None }
    }

    /// The state after `item` of the group `category`: a description waits
    /// for the next argument, replacing one that waits already; an argument
    /// is written with the description that waits, which is used up.
    pub open spec fn after_item(self, category: Seq<char>, item: ItemModel) -> ArgTypesModel {
        match item.text {
            Some(description) => ArgTypesModel {
                text: self.text,
                pending: Some(description_text(description)),
            },
            None => ArgTypesModel {
                text: self.text + arg_type_text(category, item, self.pending),
                pending: None,
            },
        }
    }

    /// The state after the first `n` of `items`.
    pub open spec fn after_items(
        self,
        category: Seq<char>,
        items: Seq<ItemModel>,
        n: nat,
    ) -> ArgTypesModel
        decreases n,
    {
        if n == 0 {
            self
        } else {
            self.after_items(category, items, (n - 1) as nat).after_item(category, items[n - 1])
        }
    }

    /// The state after the first `n` of `groups`. A description that waits at
    /// the end of a group goes to the first argument of the next.
    pub open spec fn after_groups(self, groups: Seq<GroupModel>, n: nat) -> ArgTypesModel
        decreases n,
    {
        if n == 0 {
            self
        } else {
            self.after_groups(groups, (n - 1) as nat).after_items(
                groups[n - 1].name,
                groups[n - 1].fields,
                groups[n - 1].fields.len(),
            )
        }
    }
}

/// Whether every entry of the group is a description or names its argument.
pub open spec fn group_is_renderable(group: GroupModel) -> bool {
    forall|i: int|
        0 <= i < group.fields.len() ==> (#[trigger] group.fields[i]).text is Some
            || group.fields[i].field is Some
}

impl SchemaModel {
    /// Whether a story can be written: every entry is a description or names
    /// its argument.
    pub open spec fn renderable(self) -> bool {
        forall|g: int| 0 <= g < self.schema.len() ==> group_is_renderable(#[trigger] self.schema[g])
    }

    /// The documented arguments of the schema.
    pub open spec fn arg_types_text(self) -> Seq<char> {
        ArgTypesModel::start().after_groups(self.schema, self.schema.len()).text
    }
}

/// The lines of a story that import the component `name`.
pub open spec fn component_import_text(name: Seq<char>) -> Seq<char> {
    "import "@ + name + ", {\n    I"@ + name + ",\n} from \"@srcDS/components/organisms/"@ + name
        + "\";\n\n"@
}

/// The head of the description of the component `name`.
pub open spec fn meta_header_text(name: Seq<char>) -> Seq<char> {
    "export default {\n    component: "@ + name + ",\n    title: `${documentationPath}/"@ + name
        + "`,\n    "@
}

/// The template of the stories of the component `name`.
pub open spec fn story_template_text(name: Seq<char>) -> Seq<char> {
    "// TODO: Wrap component with decorators if needed\nconst StoryTpl: Story<I"@ + name
        + "> = (args) => <"@ + name + " {...args} />;\n\n"@
}

/// The default story of the component `name`.
pub open spec fn default_story_text(name: Seq<char>) -> Seq<char> {
    "export const DefaultStory = StoryTpl.bind({});\nDefaultStory.storyName = \"Default "@ + name
        + "\";\nDefaultStory.args = {};\n"@
}

/// The text of the story file of the component `name` with the documented
/// arguments `arg_types`.
pub open spec fn story_text(name: Seq<char>, arg_types: Seq<char>) -> Seq<char> {
    "import React from \"react\";\nimport { Story, Meta } from \"@storybook/react\";\nimport { documentationPath } from \"@srcDS/storybook/constants\";\n\n"@
        + component_import_text(name) + meta_header_text(name) + arg_types
        + "    },\n} as Meta;\n\n"@ + story_template_text(name) + default_story_text(name)
}

/// The description that waits, as a mathematical value.
pub open spec fn pending_model(pending: Option<String>) -> Option<Seq<char>> {
    match pending {
        Some(text) => Some(text@),
        None => None,
    }
}

/// Whether `type_` is the kind that `kind` names.
fn is_kind(type_: &String, kind: &str) -> (same: bool)
    ensures
        same == (type_@ == kind@),
{
    let named = String::from_str(kind);
    *type_ == named
}

/// Writes the control `control` of an argument filed under `category`.
fn render_categorized(control: &str, category: &String) -> (text: String)
    ensures
        text@ == categorized_control(control@, category@),
{
    let mut text = String::from_str("control: \"");
    text.append(control);
    text.append("\", table: { category: \"");
    text.append(category.as_str());
    text.append("\" }, ");
    text
}

/// Writes what a story says of the kind of an argument.
pub fn render_control(type_: &String, category: &String) -> (text: String)
    ensures
        text@ == control_text(type_@, category@),
{
    if is_kind(type_, "string") || is_kind(type_, "markdown") {
        render_categorized("text", category)
    } else if is_kind(type_, "boolean") {
        render_categorized("boolean", category)
    } else if is_kind(type_, "number") {
        render_categorized("number", category)
    } else if is_kind(type_, "enum") {
        render_categorized("radio", category)
    } else {
        String::from_str("table: { disable: true }, ")
    }
}

/// Writes what a story says of the choices of an argument.
pub fn render_options(values: &Option<Vec<EnumValue>>) -> (text: String)
    ensures
        text@ == options_text(
            match *values {
                Some(choices) => Some(choices.deep_view()),
                None => None,
            },
        ),
{
    match values {
        Some(choices) => {
            let ghost all = choices.deep_view();
            let mut text = String::from_str("options: {");
            let mut i: usize = 0;
            proof {
                assert(all.take(0) =~= Seq::<EnumValueModel>::empty());
                assert(text@ =~= "options: {"@ + option_entries(all.take(0)));
            }
            while i < choices.len()
                invariant
                    i <= choices.len(),
                    all == choices.deep_view(),
                    text@ == "options: {"@ + option_entries(all.take(i as int)),
                decreases choices.len() - i,
            {
                let choice = &choices[i];
                let mut entry = String::from_str(choice.name.as_str());
                entry.append(": \"");
                entry.append(choice.value.as_str());
                entry.append("\", ");
                let ghost before = text@;
                text.append(entry.as_str());
                proof {
                    let next = all.take(i as int + 1);
                    assert(next.drop_last() =~= all.take(i as int));
                    assert(next.last() == choice@);
                    assert(text@ =~= "options: {"@ + option_entries(next));
                }
                i = i + 1;
            }
            proof {
                assert(all.take(choices.len() as int) =~= all);
            }
            text.append("}, ");
            text
        },
        None => String::new(),
    }
}

/// Writes what a story says of the default of an argument.
pub fn render_default(default: &Option<DefaultValue>) -> (text: String)
    ensures
        text@ == default_text(
            match *default {
                Some(value) => Some(value@),
                None => None,
            },
        ),
{
    match default {
        Some(DefaultValue::Text(value)) => {
            let mut text = String::from_str("defaultValue: \"");
            text.append(value.as_str());
            text.append("\", ");
            text
        },
        Some(DefaultValue::Flag(flag)) => {
            let mut text = String::from_str("defaultValue: ");
            if *flag {
                text.append("true");
            } else {
                text.append("false");
            }
            text.append(", ");
            text
        },
        Some(DefaultValue::Number(number)) => {
            let mut text = String::from_str("defaultValue: ");
            text.append(number.as_str());
            text.append(", ");
            text
        },
        _ => String::new(),
    }
}

/// Writes the line that documents the argument `item` of the group
/// `category`, with the description that waits for it.
pub fn render_arg_type(category: &String, item: &SchemaItem, pending: &Option<String>) -> (text:
    String)
    requires
        item@.field is Some,
    ensures
        text@ == arg_type_text(category@, item@, pending_model(*pending)),
{
    let mut text = String::from_str("        ");
    match &item.field {
        Some(field) => {
            text.append(field.as_str());
        },
        None => {},
    }
    text.append(": { ");
    let control = render_control(&item.type_, category);
    text.append(control.as_str());
    let options = render_options(&item.values);
    text.append(options.as_str());
    let default = render_default(&item.default);
    text.append(default.as_str());
    let ghost before = text@;
    match pending {
        Some(description) => {
            text.append(description.as_str());
        },
        None => {
            assert(text@ =~= before + pending_text(None));
        },
    }
    text.append("},\n");
    text
}

/// Takes one entry of the group `category` into the documented arguments.
pub fn take_in_item(
    text: &mut String,
    pending: &mut Option<String>,
    category: &String,
    item: &SchemaItem,
)
    requires
        item@.text is Some || item@.field is Some,
    ensures
        (ArgTypesModel { text: final(text)@, pending: pending_model(*final(pending)) })
            == (ArgTypesModel { text: old(text)@, pending: pending_model(*old(pending)) }).after_item(
            category@,
            item@,
        ),
{
    match &item.text {
        Some(description) => {
            let mut waiting = String::from_str("description: \"");
            waiting.append(description.as_str());
            waiting.append("\", ");
            *pending = Some(waiting);
        },
        None => {
            let line = render_arg_type(category, item, pending);
            text.append(line.as_str());
            *pending = None;
        },
    }
}

/// Whether a story can be written for `schema`.
pub fn is_renderable(schema: &Schema) -> (renderable: bool)
    ensures
        renderable == schema@.renderable(),
{
    let mut g: usize = 0;
    while g < schema.schema.len()
        invariant
            g <= schema.schema.len(),
            forall|k: int| 0 <= k < g ==> group_is_renderable(#[trigger] schema@.schema[k]),
        decreases schema.schema.len() - g,
    {
        let group = &schema.schema[g];
        assert(schema@.schema[g as int] == group@);
        let mut i: usize = 0;
        while i < group.fields.len()
            invariant
                i <= group.fields.len(),
                schema@.schema[g as int] == group@,
                g < schema.schema.len(),
                forall|k: int|
                    0 <= k < i ==> (#[trigger] group@.fields[k]).text is Some
                        || group@.fields[k].field is Some,
            decreases group.fields.len() - i,
        {
            let item = &group.fields[i];
            assert(group@.fields[i as int] == item@);
            if item.text.is_none() && item.field.is_none() {
                assert(!group_is_renderable(schema@.schema[g as int]));
                return false;
            }
            i = i + 1;
        }
        g = g + 1;
    }
    true
}

/// Writes the documented arguments of `schema`.
pub fn render_arg_types(schema: &Schema) -> (text: String)
    requires
        schema@.renderable(),
    ensures
        text@ == schema@.arg_types_text(),
{
    let ghost groups = schema@.schema;
    let mut text = String::from_str("argTypes: {\n");
    let mut pending: Option<String> = None;
    let mut g: usize = 0;
    while g < schema.schema.len()
        invariant
            g <= schema.schema.len(),
            groups == schema@.schema,
            schema@.renderable(),
            (ArgTypesModel { text: text@, pending: pending_model(pending) })
                == ArgTypesModel::start().after_groups(groups, g as nat),
        decreases schema.schema.len() - g,
    {
        let group = &schema.schema[g];
        let ghost entered = ArgTypesModel { text: text@, pending: pending_model(pending) };
        assert(groups[g as int] == group@);
        assert(group_is_renderable(groups[g as int]));
        let mut i: usize = 0;
        while i < group.fields.len()
            invariant
                i <= group.fields.len(),
                group_is_renderable(group@),
                (ArgTypesModel { text: text@, pending: pending_model(pending) })
                    == entered.after_items(group@.name, group@.fields, i as nat),
            decreases group.fields.len() - i,
        {
            let item = &group.fields[i];
            assert(group@.fields[i as int] == item@);
            take_in_item(&mut text, &mut pending, &group.name, item);
            i = i + 1;
        }
        g = g + 1;
    }
    text
}

/// Writes the story file of the component that `schema` describes.
///
/// The file is named after the component. Its text imports the component,
/// documents every argument of the schema with its kind, choices, default
/// and description, and defines a default story.
pub fn create_story(schema: &Schema) -> (story: Story)
    requires
        schema@.renderable(),
    ensures
        story.file_name@ == story_file_name_text(component_name_text(schema@.name)),
        story.contents@ == story_text(component_name_text(schema@.name), schema@.arg_types_text()),
{
    let name = component_name(schema.name.as_str());
    let file_name = story_file_name(name.as_str());
    let arg_types = render_arg_types(schema);

    let mut component_import = String::from_str("import ");
    component_import.append(name.as_str());
    component_import.append(", {\n    I");
    component_import.append(name.as_str());
    component_import.append(",\n} from \"@srcDS/components/organisms/");
    component_import.append(name.as_str());
    component_import.append("\";\n\n");

    let mut meta_header = String::from_str("export default {\n    component: ");
    meta_header.append(name.as_str());
    meta_header.append(",\n    title: `${documentationPath}/");
    meta_header.append(name.as_str());
    meta_header.append("`,\n    ");

    let mut story_template = String::from_str(
        "// TODO: Wrap component with decorators if needed\nconst StoryTpl: Story<I",
    );
    story_template.append(name.as_str());
    story_template.append("> = (args) => <");
    story_template.append(name.as_str());
    story_template.append(" {...args} />;\n\n");

    let mut default_story = String::from_str(
        "export const DefaultStory = StoryTpl.bind({});\nDefaultStory.storyName = \"Default ",
    );
    default_story.append(name.as_str());
    default_story.append("\";\nDefaultStory.args = {};\n");

    let mut contents = String::from_str(
        "import React from \"react\";\nimport { Story, Meta } from \"@storybook/react\";\nimport { documentationPath } from \"@srcDS/storybook/constants\";\n\n",
    );
    contents.append(component_import.as_str());
    contents.append(meta_header.as_str());
    contents.append(arg_types.as_str());
    contents.append("    },\n} as Meta;\n\n");
    contents.append(story_template.as_str());
    contents.append(default_story.as_str());
    Story { file_name, contents }
}

} // verus!
