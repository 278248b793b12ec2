use acd::cache::NodeCache;
use acd::NodeId;

fn nid(s: &str) -> NodeId {
    NodeId::new(s.to_string())
}

#[test]
fn put_then_get_returns_child() {
    let mut cache = NodeCache::new();
    cache.put(&nid("root"), &"docs".to_string(), &nid("c1"));
    let got = cache.get(&nid("root"), &"docs".to_string());
    assert_eq!(got, Some(nid("c1")));
}

#[test]
fn get_survives_unrelated_puts() {
    let mut cache = NodeCache::new();
    cache.put(&nid("root"), &"docs".to_string(), &nid("c1"));
    cache.put(&nid("root"), &"music".to_string(), &nid("c2"));
    cache.put(&nid("c1"), &"docs".to_string(), &nid("c3"));
    assert_eq!(cache.get(&nid("root"), &"docs".to_string()), Some(nid("c1")));
    assert_eq!(cache.get(&nid("root"), &"music".to_string()), Some(nid("c2")));
    assert_eq!(cache.get(&nid("c1"), &"docs".to_string()), Some(nid("c3")));
}

#[test]
fn duplicate_key_most_recent_insert_wins() {
    let mut cache = NodeCache::new();
    cache.put(&nid("root"), &"docs".to_string(), &nid("old"));
    cache.put(&nid("root"), &"docs".to_string(), &nid("new"));
    assert_eq!(cache.get(&nid("root"), &"docs".to_string()), Some(nid("new")));
    assert_eq!(cache.len(), 2);
}

#[test]
fn miss_returns_none() {
    let mut cache = NodeCache::new();
    assert_eq!(cache.get(&nid("root"), &"docs".to_string()), None);
    cache.put(&nid("root"), &"docs".to_string(), &nid("c1"));
    assert_eq!(cache.get(&nid("root"), &"other".to_string()), None);
    assert_eq!(cache.get(&nid("elsewhere"), &"docs".to_string()), None);
}
