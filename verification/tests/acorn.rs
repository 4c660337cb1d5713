use acorn_zomes::acorn::anchor::{agents_anchor_entry, anchor_def, init, validate_anchor_entry, validate_anchor_link};
use acorn_zomes::acorn::profile::{
    create_whoami, notify_all, notify_new_agent, profile_def, update_status, update_whoami,
    validate_profile_entry, validate_profile_link, whoami, DirectMessage, GetResponse, Profile,
    ProfileValidation, SourceChainEntry, Status, ZomeApiError,
};
use acorn_zomes::acorn::{LinkDirection, Sharing, ValidationPackageDefinition};

fn profile(handle: &str, address: &str) -> Profile {
    Profile {
        first_name: "Ada".to_string(),
        last_name: "Lovelace".to_string(),
        handle: handle.to_string(),
        status: Status::Online,
        avatar_url: "avatar.png".to_string(),
        address: address.to_string(),
    }
}

fn sources(agent: &str) -> Vec<String> {
    vec![agent.to_string(), "other".to_string()]
}

#[test]
fn init_commits_six_anchors_in_order() {
    let entries = init();
    let values: Vec<&str> = entries.iter().map(|e| e.value.as_str()).collect();
    assert_eq!(values, vec!["goal_comments", "goal_votes", "goal_members", "goals", "edges", "agents"]);
    assert!(entries.iter().all(|e| e.entry_type == "anchor"));
    let agents = agents_anchor_entry();
    assert_eq!((agents.entry_type.as_str(), agents.value.as_str()), ("anchor", "agents"));
}

#[test]
fn anchor_definition() {
    let def = anchor_def();
    assert_eq!(def.name, "anchor");
    assert_eq!(def.description, "this is an anchor entry that we can link other entries to so we can find them");
    assert!(def.sharing == Sharing::Public);
    assert!(def.validation_package == ValidationPackageDefinition::Entry);
    let links: Vec<(&str, &str)> = def.links.iter().map(|l| (l.other_type.as_str(), l.link_type.as_str())).collect();
    assert_eq!(
        links,
        vec![
            ("profile", "anchor->profiles"),
            ("goal", "anchor->goal"),
            ("edge", "anchor->edge"),
            ("goal_member", "anchor->goal_member"),
            ("goal_vote", "anchor->goal_vote"),
            ("goal_comment", "anchor->goal_comment"),
        ]
    );
    assert!(def.links.iter().all(|l| l.direction == LinkDirection::To));
    assert!(validate_anchor_entry(&"goals".to_string()).is_ok());
    assert!(validate_anchor_link(&"anchor->goal".to_string()).is_ok());
}

#[test]
fn profile_definition() {
    let def = profile_def();
    assert_eq!(def.name, "profile");
    assert_eq!(def.description, "this is an entry representing some profile info for an agent");
    assert_eq!(def.links.len(), 1);
    assert!(def.links[0].direction == LinkDirection::From);
    assert_eq!(def.links[0].other_type, "%agent_id");
    assert_eq!(def.links[0].link_type, "agent->profile");
}

#[test]
fn only_the_agent_creates_its_profile() {
    let ok = ProfileValidation::Create { entry: profile("a", "agent1") };
    assert!(validate_profile_entry(&ok, &sources("agent1")).is_ok());
    assert_eq!(
        validate_profile_entry(&ok, &sources("agent2")),
        Err("only the same agent as the profile is about can create their profile".to_string())
    );
}

#[test]
fn modify_needs_the_agent_on_either_version() {
    let both = ProfileValidation::Modify { new_entry: profile("a", "agent1"), old_entry: profile("a", "agent1") };
    assert!(validate_profile_entry(&both, &sources("agent1")).is_ok());
    let old_only = ProfileValidation::Modify { new_entry: profile("a", "x"), old_entry: profile("a", "agent1") };
    assert!(validate_profile_entry(&old_only, &sources("agent1")).is_ok());
    let new_only = ProfileValidation::Modify { new_entry: profile("a", "agent1"), old_entry: profile("a", "x") };
    assert!(validate_profile_entry(&new_only, &sources("agent1")).is_ok());
    assert_eq!(
        validate_profile_entry(&both, &sources("agent2")),
        Err("only the same agent as the profile is about can modify their profile".to_string())
    );
}

#[test]
fn only_the_agent_deletes_its_profile() {
    let del = ProfileValidation::Delete { old_entry: profile("a", "agent1") };
    assert!(validate_profile_entry(&del, &sources("agent1")).is_ok());
    assert_eq!(
        validate_profile_entry(&del, &sources("agent2")),
        Err("only the same agent as the profile is about can delete their profile".to_string())
    );
}

#[test]
fn profile_links() {
    let agent = sources("agent1");
    assert!(validate_profile_link(&agent, &None).is_ok());
    let own = Some(vec![SourceChainEntry::App { profile: Some(profile("a", "agent1")) }]);
    assert!(validate_profile_link(&agent, &own).is_ok());
    let other = Some(vec![
        SourceChainEntry::App { profile: Some(profile("a", "agent2")) },
        SourceChainEntry::Other,
    ]);
    assert_eq!(validate_profile_link(&agent, &other), Err("Cannot edit other people's Profile1".to_string()));
    let unreadable = Some(vec![SourceChainEntry::App { profile: None }]);
    assert_eq!(validate_profile_link(&agent, &unreadable), Err("Cannot edit other people's Profile2".to_string()));
    let not_app = Some(vec![SourceChainEntry::Other]);
    assert_eq!(validate_profile_link(&agent, &not_app), Err("Cannot edit other people's Profile3".to_string()));
}

#[test]
fn notify_everyone_but_me() {
    let profiles = vec![profile("a", "agent1"), profile("me", "me"), profile("b", "agent2")];
    assert_eq!(notify_all(&profiles, &"me".to_string()), vec!["agent1".to_string(), "agent2".to_string()]);
    assert!(notify_all(&vec![], &"me".to_string()).is_empty());
    match notify_new_agent(profile("a", "agent1")) {
        DirectMessage::NewAgentNotification(payload) => assert_eq!(payload.agent.handle, "a"),
    }
}

#[test]
fn update_status_changes_only_the_status() {
    let current = GetResponse { entry: profile("a", "agent1"), address: "QmProfile".to_string() };
    let (p, address) = update_status(Some(current), Status::Away).ok().unwrap();
    assert!(p.status == Status::Away);
    assert_eq!(p.handle, "a");
    assert_eq!(p.first_name, "Ada");
    assert_eq!(p.address, "agent1");
    assert_eq!(address, "QmProfile");
    match update_status(None, Status::Away) {
        Err(ZomeApiError::Internal(msg)) => assert_eq!(msg, "Could not retrieve the agent profile"),
        Ok(_) => panic!("expected an error"),
    }
}

#[test]
fn whoami_is_the_first_linked_profile() {
    let me = whoami(vec![profile("first", "a"), profile("second", "a")]).unwrap();
    assert_eq!(me.handle, "first");
    assert!(whoami(vec![]).is_none());
}

#[test]
fn create_and_update_responses() {
    let r = create_whoami(profile("a", "agent1"), "QmA".to_string());
    assert_eq!((r.entry.handle.as_str(), r.address.as_str()), ("a", "QmA"));
    let r = update_whoami(profile("b", "agent1"), "QmB".to_string());
    assert_eq!((r.entry.handle.as_str(), r.address.as_str()), ("b", "QmB"));
}
